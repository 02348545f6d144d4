//! Typed commands and their exact wire encoding.
//!
//! A command is an operation keyword, ordered arguments, an optional binary
//! payload, and the two status sets that tell the dispatcher which replies
//! count as success and which as expected domain failure.

use vstd::prelude::*;
use vstd::slice::slice_to_vec;
use vstd::string::StringSliceAdditionalSpecFns;

use crate::numbers::dec_digits;
use crate::numbers::u64_to_digits;
use crate::scan::push_all;
use crate::scan::seq_views;
use crate::status::Status;

verus! {

/// Every request keyword of the protocol.
#[derive(Debug, Clone, Copy, PartialEq, Eq, Structural)]
pub enum CommandKind {
    Put,
    PeekJob,
    PeekReady,
    PeekDelayed,
    PeekBuried,
    Reserve,
    ReserveTimeout,
    Delete,
    Release,
    Bury,
    Kick,
    JobKick,
    Touch,
    Stats,
    JobStats,
    Use,
    Watch,
    Ignore,
    ListTubes,
    ListTubeUsed,
    ListTubesWatched,
    StatsTube,
    Quit,
    PauseTube,
}

/// The keyword each kind puts on the wire.
pub open spec fn spec_kind_name(k: CommandKind) -> Seq<char> {
    match k {
        CommandKind::Put => "put"@,
        CommandKind::PeekJob => "peek"@,
        CommandKind::PeekReady => "peek-ready"@,
        CommandKind::PeekDelayed => "peek-delayed"@,
        CommandKind::PeekBuried => "peek-buried"@,
        CommandKind::Reserve => "reserve"@,
        CommandKind::ReserveTimeout => "reserve-with-timeout"@,
        CommandKind::Delete => "delete"@,
        CommandKind::Release => "release"@,
        CommandKind::Bury => "bury"@,
        CommandKind::Kick => "kick"@,
        CommandKind::JobKick => "kick-job"@,
        CommandKind::Touch => "touch"@,
        CommandKind::Stats => "stats"@,
        CommandKind::JobStats => "stats-job"@,
        CommandKind::Use => "use"@,
        CommandKind::Watch => "watch"@,
        CommandKind::Ignore => "ignore"@,
        CommandKind::ListTubes => "list-tubes"@,
        CommandKind::ListTubeUsed => "list-tube-used"@,
        CommandKind::ListTubesWatched => "list-tubes-watched"@,
        CommandKind::StatsTube => "stats-tube"@,
        CommandKind::Quit => "quit"@,
        CommandKind::PauseTube => "pause-tube"@,
    }
}

/// The keyword bytes each kind puts on the wire.
pub open spec fn spec_kind_bytes(k: CommandKind) -> Seq<u8> {
    match k {
        CommandKind::Put => "put".spec_bytes(),
        CommandKind::PeekJob => "peek".spec_bytes(),
        CommandKind::PeekReady => "peek-ready".spec_bytes(),
        CommandKind::PeekDelayed => "peek-delayed".spec_bytes(),
        CommandKind::PeekBuried => "peek-buried".spec_bytes(),
        CommandKind::Reserve => "reserve".spec_bytes(),
        CommandKind::ReserveTimeout => "reserve-with-timeout".spec_bytes(),
        CommandKind::Delete => "delete".spec_bytes(),
        CommandKind::Release => "release".spec_bytes(),
        CommandKind::Bury => "bury".spec_bytes(),
        CommandKind::Kick => "kick".spec_bytes(),
        CommandKind::JobKick => "kick-job".spec_bytes(),
        CommandKind::Touch => "touch".spec_bytes(),
        CommandKind::Stats => "stats".spec_bytes(),
        CommandKind::JobStats => "stats-job".spec_bytes(),
        CommandKind::Use => "use".spec_bytes(),
        CommandKind::Watch => "watch".spec_bytes(),
        CommandKind::Ignore => "ignore".spec_bytes(),
        CommandKind::ListTubes => "list-tubes".spec_bytes(),
        CommandKind::ListTubeUsed => "list-tube-used".spec_bytes(),
        CommandKind::ListTubesWatched => "list-tubes-watched".spec_bytes(),
        CommandKind::StatsTube => "stats-tube".spec_bytes(),
        CommandKind::Quit => "quit".spec_bytes(),
        CommandKind::PauseTube => "pause-tube".spec_bytes(),
    }
}

impl CommandKind {
    /// The operation keyword.
    pub fn name(&self) -> (r: &'static str)
        ensures
            r@ == spec_kind_name(*self),
            r.spec_bytes() == spec_kind_bytes(*self),
    {
        match self {
            CommandKind::Put => "put",
            CommandKind::PeekJob => "peek",
            CommandKind::PeekReady => "peek-ready",
            CommandKind::PeekDelayed => "peek-delayed",
            CommandKind::PeekBuried => "peek-buried",
            CommandKind::Reserve => "reserve",
            CommandKind::ReserveTimeout => "reserve-with-timeout",
            CommandKind::Delete => "delete",
            CommandKind::Release => "release",
            CommandKind::Bury => "bury",
            CommandKind::Kick => "kick",
            CommandKind::JobKick => "kick-job",
            CommandKind::Touch => "touch",
            CommandKind::Stats => "stats",
            CommandKind::JobStats => "stats-job",
            CommandKind::Use => "use",
            CommandKind::Watch => "watch",
            CommandKind::Ignore => "ignore",
            CommandKind::ListTubes => "list-tubes",
            CommandKind::ListTubeUsed => "list-tube-used",
            CommandKind::ListTubesWatched => "list-tubes-watched",
            CommandKind::StatsTube => "stats-tube",
            CommandKind::Quit => "quit",
            CommandKind::PauseTube => "pause-tube",
        }
    }
}

/// The abstract value of a command: its kind, argument byte fields in order,
/// optional payload, and the two expected status sets.
pub struct CommandView {
    pub kind: CommandKind,
    pub args: Seq<Seq<u8>>,
    pub body: Option<Seq<u8>>,
    pub ok: Seq<Status>,
    pub err: Seq<Status>,
}

impl CommandView {
    /// The success set and the expected-failure set never overlap: a status
    /// outside both is a protocol anomaly, never an ambiguity.
    pub open spec fn wf(self) -> bool {
        forall|s: Status| !(self.ok.contains(s) && self.err.contains(s))
    }
}

/// One request: operation keyword, ordered arguments, optional payload, and
/// the statuses that count as success or as expected failure for it.
#[derive(Debug)]
pub struct Command {
    kind: CommandKind,
    args: Vec<Vec<u8>>,
    body: Option<Vec<u8>>,
    expected_ok_status: Vec<Status>,
    expected_error_status: Vec<Status>,
}

impl View for Command {
    type V = CommandView;

    closed spec fn view(&self) -> CommandView {
        CommandView {
            kind: self.kind,
            args: seq_views(self.args@),
            body: match self.body {
                Option::Some(b) => Option::Some(b@),
                Option::None => Option::None,
            },
            ok: self.expected_ok_status@,
            err: self.expected_error_status@,
        }
    }
}

/// Element sequences with pairwise-distinct members never share one.
proof fn lemma_sets_disjoint(ok: Seq<Status>, err: Seq<Status>)
    requires
        forall|i: int, j: int|
            0 <= i < ok.len() && 0 <= j < err.len() ==> #[trigger] ok[i] != #[trigger] err[j],
    ensures
        forall|s: Status| !(ok.contains(s) && err.contains(s)),
{
    assert forall|s: Status| !(ok.contains(s) && err.contains(s)) by {
        if ok.contains(s) && err.contains(s) {
            let i = choose|i: int| 0 <= i < ok.len() && ok[i] == s;
            let j = choose|j: int| 0 <= j < err.len() && err[j] == s;
            assert(ok[i] != err[j]);
        }
    }
}

/// The arguments joined onto the wire line: every argument is preceded by a
/// single space.
pub open spec fn spec_join_args(args: Seq<Seq<u8>>) -> Seq<u8>
    decreases args.len(),
{
    if args.len() == 0 {
        Seq::empty()
    } else {
        spec_join_args(args.drop_last()) + seq![32u8] + args.last()
    }
}

/// The exact bytes `build` produces: the keyword, each argument preceded by
/// one space, and a CRLF; a payload adds its byte length as a final argument,
/// then the payload bytes framed by CRLF.
pub open spec fn spec_build(c: CommandView) -> Seq<u8> {
    let head = spec_kind_bytes(c.kind) + spec_join_args(c.args);
    match c.body {
        Option::None => head + seq![13u8, 10u8],
        Option::Some(b) => head + seq![32u8] + dec_digits(b.len()) + seq![13u8, 10u8] + b + seq![
            13u8,
            10u8,
        ],
    }
}

impl Command {
    fn new(
        kind: CommandKind,
        args: Vec<Vec<u8>>,
        body: Option<Vec<u8>>,
        exp_ok_status: Vec<Status>,
        exp_error_status: Vec<Status>,
    ) -> (c: Command)
        ensures
            c@.kind == kind,
            c@.args == seq_views(args@),
            c@.body == match body {
                Option::Some(b) => Option::Some(b@),
                Option::None => Option::None::<Seq<u8>>,
            },
            c@.ok == exp_ok_status@,
            c@.err == exp_error_status@,
    {
        Command { kind, args, body, expected_ok_status: exp_ok_status, expected_error_status: exp_error_status }
    }

    /// The statuses that mean this command succeeded.
    pub fn expected_ok_status(&self) -> (r: &Vec<Status>)
        ensures
            r@ == self@.ok,
    {
        &self.expected_ok_status
    }

    /// The statuses that mean this command failed in an expected,
    /// domain-level way.
    pub fn expected_error_status(&self) -> (r: &Vec<Status>)
        ensures
            r@ == self@.err,
    {
        &self.expected_error_status
    }

    /// Encode the command into its exact wire bytes.
    pub fn build(&self) -> (r: Vec<u8>)
        ensures
            r@ == spec_build(self@),
    {
        let mut out: Vec<u8> = Vec::new();
        push_all(&mut out, self.kind.name().as_bytes());
        proof {
            assert(out@ =~= spec_kind_bytes(self@.kind));
            assert(self@.args.subrange(0, 0) =~= Seq::<Seq<u8>>::empty());
        }
        let mut i: usize = 0;
        while i < self.args.len()
            invariant
                i <= self.args@.len(),
                self@.args == seq_views(self.args@),
                out@ == spec_kind_bytes(self@.kind) + spec_join_args(
                    self@.args.subrange(0, i as int),
                ),
            decreases self.args@.len() - i,
        {
            let ghost pre = self@.args.subrange(0, i as int);
            let ghost post = self@.args.subrange(0, i as int + 1);
            out.push(32);
            push_all(&mut out, self.args[i].as_slice());
            proof {
                assert(post.drop_last() =~= pre);
                assert(post.last() == self.args@[i as int]@);
                assert(out@ =~= spec_kind_bytes(self@.kind) + spec_join_args(post));
            }
            i = i + 1;
        }
        proof {
            assert(self@.args.subrange(0, self.args@.len() as int) =~= self@.args);
        }
        match &self.body {
            Option::Some(b) => {
                out.push(32);
                let digits = u64_to_digits(b.len() as u64);
                push_all(&mut out, digits.as_slice());
                out.push(13);
                out.push(10);
                push_all(&mut out, b.as_slice());
                out.push(13);
                out.push(10);
            },
            Option::None => {
                out.push(13);
                out.push(10);
            },
        }
        proof {
            assert(out@ =~= spec_build(self@));
        }
        out
    }
}

fn no_args() -> (r: Vec<Vec<u8>>)
    ensures
        seq_views(r@) == Seq::<Seq<u8>>::empty(),
{
    let r: Vec<Vec<u8>> = Vec::new();
    proof {
        assert(seq_views(r@) =~= Seq::<Seq<u8>>::empty());
    }
    r
}

fn args1(a: Vec<u8>) -> (r: Vec<Vec<u8>>)
    ensures
        seq_views(r@) == seq![a@],
{
    let mut r: Vec<Vec<u8>> = Vec::new();
    proof {
        let ghost av = a@;
        assert(seq_views(r@.push(a)) =~= seq![av]);
    }
    r.push(a);
    r
}

fn args2(a: Vec<u8>, b: Vec<u8>) -> (r: Vec<Vec<u8>>)
    ensures
        seq_views(r@) == seq![a@, b@],
{
    let mut r: Vec<Vec<u8>> = Vec::new();
    proof {
        let ghost av = a@;
        let ghost bv = b@;
        assert(seq_views(r@.push(a).push(b)) =~= seq![av, bv]);
    }
    r.push(a);
    r.push(b);
    r
}

fn args3(a: Vec<u8>, b: Vec<u8>, c: Vec<u8>) -> (r: Vec<Vec<u8>>)
    ensures
        seq_views(r@) == seq![a@, b@, c@],
{
    let mut r: Vec<Vec<u8>> = Vec::new();
    proof {
        let ghost av = a@;
        let ghost bv = b@;
        let ghost cv = c@;
        assert(seq_views(r@.push(a).push(b).push(c)) =~= seq![av, bv, cv]);
    }
    r.push(a);
    r.push(b);
    r.push(c);
    r
}

fn statuses0() -> (r: Vec<Status>)
    ensures
        r@ == Seq::<Status>::empty(),
{
    Vec::new()
}

fn statuses1(a: Status) -> (r: Vec<Status>)
    ensures
        r@ == seq![a],
{
    let mut r: Vec<Status> = Vec::new();
    r.push(a);
    proof {
        assert(r@ =~= seq![a]);
    }
    r
}

fn statuses2(a: Status, b: Status) -> (r: Vec<Status>)
    ensures
        r@ == seq![a, b],
{
    let mut r: Vec<Status> = Vec::new();
    r.push(a);
    r.push(b);
    proof {
        assert(r@ =~= seq![a, b]);
    }
    r
}

fn statuses3(a: Status, b: Status, c: Status) -> (r: Vec<Status>)
    ensures
        r@ == seq![a, b, c],
{
    let mut r: Vec<Status> = Vec::new();
    r.push(a);
    r.push(b);
    r.push(c);
    proof {
        assert(r@ =~= seq![a, b, c]);
    }
    r
}

/// The submit-job command: priority, delay and time-to-run as decimal
/// arguments, the job body as payload.
pub fn put(body: &[u8], priority: u32, delay_secs: u64, ttr_secs: u64) -> (c: Command)
    ensures
        c@.kind == CommandKind::Put,
        c@.args == seq![
            dec_digits(priority as nat),
            dec_digits(delay_secs as nat),
            dec_digits(ttr_secs as nat),
        ],
        c@.body == Option::Some(body@),
        c@.ok == seq![Status::Inserted],
        c@.err == seq![Status::JobTooBig, Status::Buried, Status::Draining],
        c@.wf(),
{
    let c = Command::new(
        CommandKind::Put,
        args3(u64_to_digits(priority as u64), u64_to_digits(delay_secs), u64_to_digits(ttr_secs)),
        Option::Some(slice_to_vec(body)),
        statuses1(Status::Inserted),
        statuses3(Status::JobTooBig, Status::Buried, Status::Draining),
    );
    proof {
        lemma_sets_disjoint(c@.ok, c@.err);
    }
    c
}

/// The reserve command; a timeout selects the bounded variant with the
/// timeout in seconds as its one argument.
pub fn reserve(timeout_secs: Option<u64>) -> (c: Command)
    ensures
        timeout_secs is None ==> c@.kind == CommandKind::Reserve && c@.args
            == Seq::<Seq<u8>>::empty(),
        timeout_secs matches Some(t) ==> c@.kind == CommandKind::ReserveTimeout && c@.args == seq![
            dec_digits(t as nat),
        ],
        c@.body is None,
        c@.ok == seq![Status::Reserved],
        c@.err == seq![Status::TimedOut, Status::DeadlineSoon],
        c@.wf(),
{
    let c = match timeout_secs {
        Option::None => Command::new(
            CommandKind::Reserve,
            no_args(),
            Option::None,
            statuses1(Status::Reserved),
            statuses2(Status::TimedOut, Status::DeadlineSoon),
        ),
        Option::Some(t) => Command::new(
            CommandKind::ReserveTimeout,
            args1(u64_to_digits(t)),
            Option::None,
            statuses1(Status::Reserved),
            statuses2(Status::TimedOut, Status::DeadlineSoon),
        ),
    };
    proof {
        lemma_sets_disjoint(c@.ok, c@.err);
    }
    c
}

/// Kick at most `bound` buried or delayed jobs back to ready.
pub fn kick(bound: u32) -> (c: Command)
    ensures
        c@.kind == CommandKind::Kick,
        c@.args == seq![dec_digits(bound as nat)],
        c@.body is None,
        c@.ok == seq![Status::Kicked],
        c@.err == Seq::<Status>::empty(),
        c@.wf(),
{
    Command::new(
        CommandKind::Kick,
        args1(u64_to_digits(bound as u64)),
        Option::None,
        statuses1(Status::Kicked),
        statuses0(),
    )
}

/// Kick one specific job back to ready.
pub fn kick_job(job_id: u64) -> (c: Command)
    ensures
        c@.kind == CommandKind::JobKick,
        c@.args == seq![dec_digits(job_id as nat)],
        c@.body is None,
        c@.ok == seq![Status::Kicked],
        c@.err == seq![Status::NotFound],
        c@.wf(),
{
    let c = Command::new(
        CommandKind::JobKick,
        args1(u64_to_digits(job_id)),
        Option::None,
        statuses1(Status::Kicked),
        statuses1(Status::NotFound),
    );
    proof {
        lemma_sets_disjoint(c@.ok, c@.err);
    }
    c
}

fn peek(kind: CommandKind, args: Vec<Vec<u8>>) -> (c: Command)
    ensures
        c@.kind == kind,
        c@.args == seq_views(args@),
        c@.body is None,
        c@.ok == seq![Status::Found],
        c@.err == seq![Status::NotFound],
        c@.wf(),
{
    let c = Command::new(
        kind,
        args,
        Option::None,
        statuses1(Status::Found),
        statuses1(Status::NotFound),
    );
    proof {
        lemma_sets_disjoint(c@.ok, c@.err);
    }
    c
}

/// Inspect one specific job.
pub fn peek_job(job_id: u64) -> (c: Command)
    ensures
        c@.kind == CommandKind::PeekJob,
        c@.args == seq![dec_digits(job_id as nat)],
        c@.body is None,
        c@.ok == seq![Status::Found],
        c@.err == seq![Status::NotFound],
        c@.wf(),
{
    peek(CommandKind::PeekJob, args1(u64_to_digits(job_id)))
}

/// Inspect the next ready job.
pub fn peek_ready() -> (c: Command)
    ensures
        c@.kind == CommandKind::PeekReady,
        c@.args == Seq::<Seq<u8>>::empty(),
        c@.body is None,
        c@.ok == seq![Status::Found],
        c@.err == seq![Status::NotFound],
        c@.wf(),
{
    peek(CommandKind::PeekReady, no_args())
}

/// Inspect the delayed job with the shortest delay left.
pub fn peek_delayed() -> (c: Command)
    ensures
        c@.kind == CommandKind::PeekDelayed,
        c@.args == Seq::<Seq<u8>>::empty(),
        c@.body is None,
        c@.ok == seq![Status::Found],
        c@.err == seq![Status::NotFound],
        c@.wf(),
{
    peek(CommandKind::PeekDelayed, no_args())
}

/// Inspect the next buried job.
pub fn peek_buried() -> (c: Command)
    ensures
        c@.kind == CommandKind::PeekBuried,
        c@.args == Seq::<Seq<u8>>::empty(),
        c@.body is None,
        c@.ok == seq![Status::Found],
        c@.err == seq![Status::NotFound],
        c@.wf(),
{
    peek(CommandKind::PeekBuried, no_args())
}

/// List every tube the server knows.
pub fn tubes() -> (c: Command)
    ensures
        c@.kind == CommandKind::ListTubes,
        c@.args == Seq::<Seq<u8>>::empty(),
        c@.body is None,
        c@.ok == seq![Status::Okay],
        c@.err == Seq::<Status>::empty(),
        c@.wf(),
{
    Command::new(
        CommandKind::ListTubes,
        no_args(),
        Option::None,
        statuses1(Status::Okay),
        statuses0(),
    )
}

/// Name the tube currently being used.
pub fn using() -> (c: Command)
    ensures
        c@.kind == CommandKind::ListTubeUsed,
        c@.args == Seq::<Seq<u8>>::empty(),
        c@.body is None,
        c@.ok == seq![Status::Using],
        c@.err == Seq::<Status>::empty(),
        c@.wf(),
{
    Command::new(
        CommandKind::ListTubeUsed,
        no_args(),
        Option::None,
        statuses1(Status::Using),
        statuses0(),
    )
}

/// Switch the tube new jobs are put into.
pub fn use_tube(name: &str) -> (c: Command)
    ensures
        c@.kind == CommandKind::Use,
        c@.args == seq![name.spec_bytes()],
        c@.body is None,
        c@.ok == seq![Status::Using],
        c@.err == Seq::<Status>::empty(),
        c@.wf(),
{
    Command::new(
        CommandKind::Use,
        args1(slice_to_vec(name.as_bytes())),
        Option::None,
        statuses1(Status::Using),
        statuses0(),
    )
}

/// List the tubes currently watched.
pub fn watching() -> (c: Command)
    ensures
        c@.kind == CommandKind::ListTubesWatched,
        c@.args == Seq::<Seq<u8>>::empty(),
        c@.body is None,
        c@.ok == seq![Status::Okay],
        c@.err == Seq::<Status>::empty(),
        c@.wf(),
{
    Command::new(
        CommandKind::ListTubesWatched,
        no_args(),
        Option::None,
        statuses1(Status::Okay),
        statuses0(),
    )
}

/// Add a tube to the watch list.
pub fn watch(name: &str) -> (c: Command)
    ensures
        c@.kind == CommandKind::Watch,
        c@.args == seq![name.spec_bytes()],
        c@.body is None,
        c@.ok == seq![Status::Watching],
        c@.err == Seq::<Status>::empty(),
        c@.wf(),
{
    Command::new(
        CommandKind::Watch,
        args1(slice_to_vec(name.as_bytes())),
        Option::None,
        statuses1(Status::Watching),
        statuses0(),
    )
}

/// Remove a tube from the watch list; the server refuses to drop the last
/// watched tube with `NOT_IGNORED`.
pub fn ignore(name: &str) -> (c: Command)
    ensures
        c@.kind == CommandKind::Ignore,
        c@.args == seq![name.spec_bytes()],
        c@.body is None,
        c@.ok == seq![Status::Watching],
        c@.err == seq![Status::NotIgnored],
        c@.wf(),
{
    let c = Command::new(
        CommandKind::Ignore,
        args1(slice_to_vec(name.as_bytes())),
        Option::None,
        statuses1(Status::Watching),
        statuses1(Status::NotIgnored),
    );
    proof {
        lemma_sets_disjoint(c@.ok, c@.err);
    }
    c
}

/// Server-wide statistics.
pub fn stats() -> (c: Command)
    ensures
        c@.kind == CommandKind::Stats,
        c@.args == Seq::<Seq<u8>>::empty(),
        c@.body is None,
        c@.ok == seq![Status::Okay],
        c@.err == Seq::<Status>::empty(),
        c@.wf(),
{
    Command::new(
        CommandKind::Stats,
        no_args(),
        Option::None,
        statuses1(Status::Okay),
        statuses0(),
    )
}

/// Statistics about one tube.
pub fn stats_tube(name: &str) -> (c: Command)
    ensures
        c@.kind == CommandKind::StatsTube,
        c@.args == seq![name.spec_bytes()],
        c@.body is None,
        c@.ok == seq![Status::Okay],
        c@.err == seq![Status::NotFound],
        c@.wf(),
{
    let c = Command::new(
        CommandKind::StatsTube,
        args1(slice_to_vec(name.as_bytes())),
        Option::None,
        statuses1(Status::Okay),
        statuses1(Status::NotFound),
    );
    proof {
        lemma_sets_disjoint(c@.ok, c@.err);
    }
    c
}

/// Pause a tube for the given number of seconds.
pub fn pause_tube(name: &str, delay_secs: u64) -> (c: Command)
    ensures
        c@.kind == CommandKind::PauseTube,
        c@.args == seq![name.spec_bytes(), dec_digits(delay_secs as nat)],
        c@.body is None,
        c@.ok == seq![Status::Paused],
        c@.err == seq![Status::NotFound],
        c@.wf(),
{
    let c = Command::new(
        CommandKind::PauseTube,
        args2(slice_to_vec(name.as_bytes()), u64_to_digits(delay_secs)),
        Option::None,
        statuses1(Status::Paused),
        statuses1(Status::NotFound),
    );
    proof {
        lemma_sets_disjoint(c@.ok, c@.err);
    }
    c
}

/// Delete a job.
pub fn delete(job_id: u64) -> (c: Command)
    ensures
        c@.kind == CommandKind::Delete,
        c@.args == seq![dec_digits(job_id as nat)],
        c@.body is None,
        c@.ok == seq![Status::Deleted],
        c@.err == seq![Status::NotFound],
        c@.wf(),
{
    let c = Command::new(
        CommandKind::Delete,
        args1(u64_to_digits(job_id)),
        Option::None,
        statuses1(Status::Deleted),
        statuses1(Status::NotFound),
    );
    proof {
        lemma_sets_disjoint(c@.ok, c@.err);
    }
    c
}

/// Release a reserved job back to ready: job id, new priority, delay in
/// seconds, in that order.
pub fn release(job_id: u64, priority: u32, delay_secs: u64) -> (c: Command)
    ensures
        c@.kind == CommandKind::Release,
        c@.args == seq![
            dec_digits(job_id as nat),
            dec_digits(priority as nat),
            dec_digits(delay_secs as nat),
        ],
        c@.body is None,
        c@.ok == seq![Status::Released, Status::Buried],
        c@.err == seq![Status::NotFound],
        c@.wf(),
{
    let c = Command::new(
        CommandKind::Release,
        args3(u64_to_digits(job_id), u64_to_digits(priority as u64), u64_to_digits(delay_secs)),
        Option::None,
        statuses2(Status::Released, Status::Buried),
        statuses1(Status::NotFound),
    );
    proof {
        lemma_sets_disjoint(c@.ok, c@.err);
    }
    c
}

/// Bury a reserved job.
pub fn bury(job_id: u64, priority: u32) -> (c: Command)
    ensures
        c@.kind == CommandKind::Bury,
        c@.args == seq![dec_digits(job_id as nat), dec_digits(priority as nat)],
        c@.body is None,
        c@.ok == seq![Status::Buried],
        c@.err == seq![Status::NotFound],
        c@.wf(),
{
    let c = Command::new(
        CommandKind::Bury,
        args2(u64_to_digits(job_id), u64_to_digits(priority as u64)),
        Option::None,
        statuses1(Status::Buried),
        statuses1(Status::NotFound),
    );
    proof {
        lemma_sets_disjoint(c@.ok, c@.err);
    }
    c
}

/// Refresh the time-to-run of a reserved job.
pub fn touch(job_id: u64) -> (c: Command)
    ensures
        c@.kind == CommandKind::Touch,
        c@.args == seq![dec_digits(job_id as nat)],
        c@.body is None,
        c@.ok == seq![Status::Touched],
        c@.err == seq![Status::NotFound],
        c@.wf(),
{
    let c = Command::new(
        CommandKind::Touch,
        args1(u64_to_digits(job_id)),
        Option::None,
        statuses1(Status::Touched),
        statuses1(Status::NotFound),
    );
    proof {
        lemma_sets_disjoint(c@.ok, c@.err);
    }
    c
}

/// Statistics about one job.
pub fn stats_job(job_id: u64) -> (c: Command)
    ensures
        c@.kind == CommandKind::JobStats,
        c@.args == seq![dec_digits(job_id as nat)],
        c@.body is None,
        c@.ok == seq![Status::Okay],
        c@.err == seq![Status::NotFound],
        c@.wf(),
{
    let c = Command::new(
        CommandKind::JobStats,
        args1(u64_to_digits(job_id)),
        Option::None,
        statuses1(Status::Okay),
        statuses1(Status::NotFound),
    );
    proof {
        lemma_sets_disjoint(c@.ok, c@.err);
    }
    c
}

/// Tell the server the client is leaving; no reply is expected.
pub fn quit() -> (c: Command)
    ensures
        c@.kind == CommandKind::Quit,
        c@.args == Seq::<Seq<u8>>::empty(),
        c@.body is None,
        c@.ok == Seq::<Status>::empty(),
        c@.err == Seq::<Status>::empty(),
        c@.wf(),
{
    Command::new(CommandKind::Quit, no_args(), Option::None, statuses0(), statuses0())
}

} // verus!
