//! The outside world as the procedures see it.
//!
//! Every procedure of this crate is a state machine: it is handed the reply to
//! the operation it asked for last, and answers with the lines to print and the
//! next operation to perform.  The program around the library performs the
//! operations (runs commands, probes paths, writes files) and hands back the
//! replies; the library only decides.
use vstd::prelude::*;

verus! {

/// One line of output, for standard output or for standard error.
#[derive(Debug, Clone, PartialEq, Eq)]
pub enum Line {
    Stdout(String),
    Stderr(String),
}

pub enum LineView {
    Stdout(Seq<char>),
    Stderr(Seq<char>),
}

impl View for Line {
    type V = LineView;

    open spec fn view(&self) -> LineView {
        match self {
            Line::Stdout(s) => LineView::Stdout(s@),
            Line::Stderr(s) => LineView::Stderr(s@),
        }
    }
}

/// An operation on the outside world.
#[derive(Debug, Clone, PartialEq, Eq)]
pub enum Op {
    /// Run a program quietly and capture what it prints; answered by `Event::Output`.
    Query { program: String, args: Vec<String> },
    /// Run a program the way the tool runs copies (`scp`); answered by `Event::Output`.
    Run { program: String, args: Vec<String> },
    /// Run a shell command on the remote host over ssh; answered by `Event::Output`.
    Remote { host: String, user: String, command: String },
    /// Run a program attached to the terminal; answered by `Event::Exited`.
    Interactive { program: String, args: Vec<String> },
    /// Start a program in the background with its output discarded; answered by `Event::Done`.
    Spawn { program: String },
    /// Ask whether a path exists; answered by `Event::Exists`.
    PathExists { path: String },
    /// Read a text file, the empty text where it cannot be read; answered by `Event::Text`.
    ReadText { path: String },
    /// Write a text file; a failure stops the program with `context` as its message.
    WriteText { path: String, content: String, context: String },
    /// Create a directory and its parents; answered by `Event::Done`.
    EnsureDir { path: String },
    /// Load the host configuration; answered by `Event::Config`.
    LoadConfig,
    /// Write the initial host configuration; answered by `Event::Done`.
    InitConfig,
    /// Wait; answered by `Event::Done`.
    Sleep { seconds: u64 },
    /// The procedure is over; nothing more to do.
    Finish,
    /// The procedure failed; the process ends with this exit code.
    Exit { code: i32 },
}

pub enum OpView {
    Query { program: Seq<char>, args: Seq<Seq<char>> },
    Run { program: Seq<char>, args: Seq<Seq<char>> },
    Remote { host: Seq<char>, user: Seq<char>, command: Seq<char> },
    Interactive { program: Seq<char>, args: Seq<Seq<char>> },
    Spawn { program: Seq<char> },
    PathExists { path: Seq<char> },
    ReadText { path: Seq<char> },
    WriteText { path: Seq<char>, content: Seq<char>, context: Seq<char> },
    EnsureDir { path: Seq<char> },
    LoadConfig,
    InitConfig,
    Sleep { seconds: u64 },
    Finish,
    Exit { code: i32 },
}

impl View for Op {
    type V = OpView;

    open spec fn view(&self) -> OpView {
        match self {
            Op::Query { program, args } => OpView::Query { program: program@, args: args.deep_view() },
            Op::Run { program, args } => OpView::Run { program: program@, args: args.deep_view() },
            Op::Remote { host, user, command } => OpView::Remote {
                host: host@,
                user: user@,
                command: command@,
            },
            Op::Interactive { program, args } => OpView::Interactive {
                program: program@,
                args: args.deep_view(),
            },
            Op::Spawn { program } => OpView::Spawn { program: program@ },
            Op::PathExists { path } => OpView::PathExists { path: path@ },
            Op::ReadText { path } => OpView::ReadText { path: path@ },
            Op::WriteText { path, content, context } => OpView::WriteText {
                path: path@,
                content: content@,
                context: context@,
            },
            Op::EnsureDir { path } => OpView::EnsureDir { path: path@ },
            Op::LoadConfig => OpView::LoadConfig,
            Op::InitConfig => OpView::InitConfig,
            Op::Sleep { seconds } => OpView::Sleep { seconds: *seconds },
            Op::Finish => OpView::Finish,
            Op::Exit { code } => OpView::Exit { code: *code },
        }
    }
}

impl OpView {
    /// The operation ends the procedure: no reply is awaited after it.
    pub open spec fn is_terminal(self) -> bool {
        self is Finish || self is Exit
    }
}

/// A step that ends the process with a failure does so with exit code 1,
/// right after printing an error line.
pub open spec fn fails_loudly(a: ActionView) -> bool {
    a.op is Exit ==> a.op == OpView::Exit { code: 1 } && a.say.len() > 0 && a.say.last() is Stderr
}

/// What a step prints, followed by the operation it asks for.
#[derive(Debug, Clone, PartialEq, Eq)]
pub struct Action {
    pub say: Vec<Line>,
    pub op: Op,
}

pub struct ActionView {
    pub say: Seq<LineView>,
    pub op: OpView,
}

impl View for Action {
    type V = ActionView;

    open spec fn view(&self) -> ActionView {
        ActionView { say: lines_view(self.say@), op: self.op@ }
    }
}

pub open spec fn lines_view(lines: Seq<Line>) -> Seq<LineView> {
    lines.map_values(|l: Line| l@)
}

/// The reply of the outside world to the last operation.
#[derive(Debug, Clone, PartialEq, Eq)]
pub enum Event {
    /// A command ran: whether it exited with success, and what it printed.
    Output { success: bool, stdout: String },
    /// An attached command ended: whether it succeeded (`false` where it could not start).
    Exited { success: bool },
    /// Whether the probed path exists.
    Exists(bool),
    /// The text that was read.
    Text(String),
    /// The host configuration.
    Config { host: String, user: String },
    /// The operation was carried out; also the reply that starts a procedure.
    Done,
}

pub enum EventView {
    Output { success: bool, stdout: Seq<char> },
    Exited { success: bool },
    Exists(bool),
    Text(Seq<char>),
    Config { host: Seq<char>, user: Seq<char> },
    Done,
}

impl View for Event {
    type V = EventView;

    open spec fn view(&self) -> EventView {
        match self {
            Event::Output { success, stdout } => EventView::Output { success: *success, stdout: stdout@ },
            Event::Exited { success } => EventView::Exited { success: *success },
            Event::Exists(b) => EventView::Exists(*b),
            Event::Text(t) => EventView::Text(t@),
            Event::Config { host, user } => EventView::Config { host: host@, user: user@ },
            Event::Done => EventView::Done,
        }
    }
}

impl EventView {
    /// The reply reports success: a command that succeeded, or a path that exists.
    /// A reply of any other kind counts as a failure.
    pub open spec fn ok(self) -> bool {
        match self {
            EventView::Output { success, .. } => success,
            EventView::Exited { success } => success,
            EventView::Exists(b) => b,
            _ => false,
        }
    }

    /// The text carried by the reply, the empty text where it carries none.
    pub open spec fn text(self) -> Seq<char> {
        match self {
            EventView::Output { stdout, .. } => stdout,
            EventView::Text(t) => t,
            _ => Seq::empty(),
        }
    }

    /// The configured remote host, the empty text where the reply is no configuration.
    pub open spec fn host(self) -> Seq<char> {
        match self {
            EventView::Config { host, .. } => host,
            _ => Seq::empty(),
        }
    }

    /// The configured remote user, the empty text where the reply is no configuration.
    pub open spec fn user(self) -> Seq<char> {
        match self {
            EventView::Config { user, .. } => user,
            _ => Seq::empty(),
        }
    }
}

impl Event {
    pub fn ok(&self) -> (r: bool)
        ensures
            r == self@.ok(),
    {
        match self {
            Event::Output { success, .. } => *success,
            Event::Exited { success } => *success,
            Event::Exists(b) => *b,
            _ => false,
        }
    }

    pub fn text(&self) -> (r: String)
        ensures
            r@ == self@.text(),
    {
        match self {
            Event::Output { stdout, .. } => stdout.clone(),
            Event::Text(t) => t.clone(),
            _ => String::new(),
        }
    }

    pub fn host(&self) -> (r: String)
        ensures
            r@ == self@.host(),
    {
        match self {
            Event::Config { host, .. } => host.clone(),
            _ => String::new(),
        }
    }

    pub fn user(&self) -> (r: String)
        ensures
            r@ == self@.user(),
    {
        match self {
            Event::Config { user, .. } => user.clone(),
            _ => String::new(),
        }
    }
}

/// The actions a procedure takes from state `s` when it is handed `replies`
/// one by one: the `k`-th action answers `replies[k]`.
pub open spec fn replay<S>(next: spec_fn(S, EventView) -> (S, ActionView), s: S, replies: Seq<EventView>) -> Seq<ActionView>
    decreases replies.len(),
{
    if replies.len() == 0 {
        Seq::empty()
    } else {
        seq![next(s, replies[0]).1] + replay(next, next(s, replies[0]).0, replies.drop_first())
    }
}

pub proof fn lemma_replay_index<S>(next: spec_fn(S, EventView) -> (S, ActionView), s: S, replies: Seq<EventView>, k: int)
    requires
        0 <= k < replies.len(),
    ensures
        replay(next, s, replies).len() == replies.len(),
        k == 0 ==> replay(next, s, replies)[k] == next(s, replies[0]).1,
        k > 0 ==> replay(next, s, replies)[k] == replay(next, next(s, replies[0]).0, replies.drop_first())[k - 1],
    decreases replies.len(),
{
    lemma_replay_len(next, s, replies);
}

pub proof fn lemma_replay_len<S>(next: spec_fn(S, EventView) -> (S, ActionView), s: S, replies: Seq<EventView>)
    ensures
        replay(next, s, replies).len() == replies.len(),
    decreases replies.len(),
{
    if replies.len() > 0 {
        lemma_replay_len(next, next(s, replies[0]).0, replies.drop_first());
    }
}

/// The state a machine has reached from `s` after taking the first `k` of `replies`.
pub open spec fn state_after<S>(
    next: spec_fn(S, EventView) -> (S, ActionView),
    s: S,
    replies: Seq<EventView>,
    k: nat,
) -> S
    decreases k,
{
    if k == 0 {
        s
    } else {
        next(state_after(next, s, replies, (k - 1) as nat), replies[k - 1]).0
    }
}

proof fn lemma_state_after_shift<S>(
    next: spec_fn(S, EventView) -> (S, ActionView),
    s: S,
    replies: Seq<EventView>,
    k: nat,
)
    requires
        1 <= k <= replies.len(),
    ensures
        state_after(next, s, replies, k) == state_after(
            next,
            next(s, replies[0]).0,
            replies.drop_first(),
            (k - 1) as nat,
        ),
    decreases k,
{
    let t = next(s, replies[0]).0;
    let rest = replies.drop_first();
    if k == 1 {
        assert(state_after(next, s, replies, 0) == s);
        assert(state_after(next, t, rest, 0) == t);
    } else {
        lemma_state_after_shift(next, s, replies, (k - 1) as nat);
        assert(rest[k - 2] == replies[k - 1]);
        assert(state_after(next, t, rest, (k - 1) as nat) == next(
            state_after(next, t, rest, (k - 2) as nat),
            rest[k - 2],
        ).0);
    }
}

/// The `k`-th action of a run answers the `k`-th reply from the state reached
/// after the replies before it.
pub proof fn lemma_replay_at<S>(
    next: spec_fn(S, EventView) -> (S, ActionView),
    s: S,
    replies: Seq<EventView>,
    k: int,
)
    requires
        0 <= k < replies.len(),
    ensures
        replay(next, s, replies)[k] == next(state_after(next, s, replies, k as nat), replies[k]).1,
    decreases k,
{
    lemma_replay_index(next, s, replies, k);
    if k > 0 {
        let t = next(s, replies[0]).0;
        lemma_replay_at(next, t, replies.drop_first(), k - 1);
        lemma_state_after_shift(next, s, replies, k as nat);
        assert(replies.drop_first()[k - 1] == replies[k]);
    }
}

/// Operations matching `target` that a machine issues only from `good` states
/// or from an `entry` state on a reply that passes `gate`, where a `good` state
/// is entered only the same way, and an `entry` state is entered only by
/// issuing `probe`: in any run that starts outside `good` and `entry`, each
/// `target` answers, or comes after, a `probe` whose reply passed `gate`.
/// The hypotheses need only hold in states that satisfy `inv`, an invariant
/// of the machine that holds where the run starts.
pub proof fn lemma_gated<S>(
    next: spec_fn(S, EventView) -> (S, ActionView),
    inv: spec_fn(S) -> bool,
    good: spec_fn(S) -> bool,
    entry: spec_fn(S) -> bool,
    gate: spec_fn(EventView) -> bool,
    probe: OpView,
    target: spec_fn(OpView) -> bool,
    s: S,
    replies: Seq<EventView>,
    k: int,
)
    requires
        forall|s: S, e: EventView| inv(s) ==> inv(#[trigger] next(s, e).0),
        forall|s: S, e: EventView|
            inv(s) && target(#[trigger] next(s, e).1.op) ==> good(s) || (entry(s) && gate(e)),
        forall|s: S, e: EventView| inv(s) && good(#[trigger] next(s, e).0) ==> good(s) || (entry(s) && gate(e)),
        forall|s: S, e: EventView| inv(s) && entry(#[trigger] next(s, e).0) ==> next(s, e).1.op == probe,
        inv(s),
        0 <= k < replies.len(),
        target(replay(next, s, replies)[k].op),
    ensures
        good(s) || (entry(s) && gate(replies[0])) || exists|j: int|
            0 <= j < k && #[trigger] replay(next, s, replies)[j].op == probe && gate(replies[j + 1]),
    decreases replies.len(),
{
    lemma_replay_index(next, s, replies, k);
    let t = next(s, replies[0]).0;
    let rest = replies.drop_first();
    if k == 0 {
        assert(target(next(s, replies[0]).1.op));
    } else {
        lemma_gated(next, inv, good, entry, gate, probe, target, t, rest, k - 1);
        if good(t) {
        } else if entry(t) && gate(rest[0]) {
            lemma_replay_index(next, s, replies, 0);
            assert(replay(next, s, replies)[0].op == probe);
            assert(gate(replies[1]));
        } else {
            let j = choose|j: int|
                0 <= j < k - 1 && #[trigger] replay(next, t, rest)[j].op == probe && gate(rest[j + 1]);
            lemma_replay_index(next, s, replies, j + 1);
            assert(replay(next, s, replies)[j + 1].op == probe);
            assert(gate(replies[j + 2]));
        }
    }
}

/// A machine whose every reply from an unfinished state lowers `rank`, and
/// whose operation is terminal exactly when it enters a `done` state, issues a
/// terminal operation within `rank(s)` replies of an unfinished state `s`.
pub proof fn lemma_ends_within<S>(
    next: spec_fn(S, EventView) -> (S, ActionView),
    rank: spec_fn(S) -> nat,
    done: spec_fn(S) -> bool,
    s: S,
    replies: Seq<EventView>,
)
    requires
        forall|s: S, e: EventView| #[trigger] next(s, e).1.op.is_terminal() <==> done(next(s, e).0),
        forall|s: S, e: EventView| !done(s) ==> rank(#[trigger] next(s, e).0) < rank(s),
        !done(s),
        replies.len() >= rank(s),
    ensures
        exists|k: int| 0 <= k < rank(s) && #[trigger] replay(next, s, replies)[k].op.is_terminal(),
    decreases rank(s),
{
    let t = next(s, replies[0]).0;
    lemma_replay_index(next, s, replies, 0);
    if done(t) {
        assert(replay(next, s, replies)[0].op.is_terminal());
    } else {
        lemma_ends_within(next, rank, done, t, replies.drop_first());
        let k = choose|k: int| 0 <= k < rank(t) && #[trigger] replay(next, t, replies.drop_first())[k].op.is_terminal();
        lemma_replay_index(next, s, replies, k + 1);
        assert(replay(next, s, replies)[k + 1].op.is_terminal());
    }
}

// Small builders used by every procedure.

pub fn out(s: &str) -> (r: Line)
    ensures
        r@ == LineView::Stdout(s@),
{
    Line::Stdout(s.to_owned())
}

pub fn err(s: &str) -> (r: Line)
    ensures
        r@ == LineView::Stderr(s@),
{
    Line::Stderr(s.to_owned())
}

/// `yes` where `b` holds, else `no`.
pub fn pick(b: bool, yes: &'static str, no: &'static str) -> (r: &'static str)
    ensures
        r@ == if b { yes@ } else { no@ },
{
    if b {
        yes
    } else {
        no
    }
}

/// A line for standard output made of `label` followed by `value`.
pub fn labelled(label: &str, value: &str) -> (r: Line)
    ensures
        r@ == LineView::Stdout(label@ + value@),
{
    Line::Stdout(label.to_owned().concat(value))
}

pub fn say0() -> (r: Vec<Line>)
    ensures
        lines_view(r@) == Seq::<LineView>::empty(),
{
    let r: Vec<Line> = Vec::new();
    assert(lines_view(r@) =~= Seq::<LineView>::empty());
    r
}

pub fn say1(a: Line) -> (r: Vec<Line>)
    ensures
        lines_view(r@) == seq![a@],
{
    let ghost va = a@;
    let mut r: Vec<Line> = Vec::new();
    r.push(a);
    assert(lines_view(r@) =~= seq![va]);
    r
}

pub fn say2(a: Line, b: Line) -> (r: Vec<Line>)
    ensures
        lines_view(r@) == seq![a@, b@],
{
    let ghost va = a@;
    let ghost vb = b@;
    let mut r: Vec<Line> = Vec::new();
    r.push(a);
    r.push(b);
    assert(lines_view(r@) =~= seq![va, vb]);
    r
}

pub fn say3(a: Line, b: Line, c: Line) -> (r: Vec<Line>)
    ensures
        lines_view(r@) == seq![a@, b@, c@],
{
    let ghost va = a@;
    let ghost vb = b@;
    let ghost vc = c@;
    let mut r: Vec<Line> = Vec::new();
    r.push(a);
    r.push(b);
    r.push(c);
    assert(lines_view(r@) =~= seq![va, vb, vc]);
    r
}

/// The lines of `a` followed by those of `b`.
pub fn join(a: Vec<Line>, b: Vec<Line>) -> (r: Vec<Line>)
    ensures
        lines_view(r@) == lines_view(a@) + lines_view(b@),
{
    let ghost va = a@;
    let ghost vb = b@;
    let mut a = a;
    let mut b = b;
    a.append(&mut b);
    assert(lines_view(a@) =~= lines_view(va) + lines_view(vb));
    a
}

pub fn args1(a: &str) -> (r: Vec<String>)
    ensures
        r.deep_view() == seq![a@],
{
    let mut r: Vec<String> = Vec::new();
    r.push(a.to_owned());
    assert(r.deep_view() =~= seq![a@]);
    r
}

pub fn args2(a: &str, b: &str) -> (r: Vec<String>)
    ensures
        r.deep_view() == seq![a@, b@],
{
    let mut r: Vec<String> = Vec::new();
    r.push(a.to_owned());
    r.push(b.to_owned());
    assert(r.deep_view() =~= seq![a@, b@]);
    r
}

pub fn args3(a: &str, b: &str, c: &str) -> (r: Vec<String>)
    ensures
        r.deep_view() == seq![a@, b@, c@],
{
    let mut r: Vec<String> = Vec::new();
    r.push(a.to_owned());
    r.push(b.to_owned());
    r.push(c.to_owned());
    assert(r.deep_view() =~= seq![a@, b@, c@]);
    r
}

pub fn args5(a: &str, b: &str, c: &str, d: &str, e: &str) -> (r: Vec<String>)
    ensures
        r.deep_view() == seq![a@, b@, c@, d@, e@],
{
    let mut r: Vec<String> = Vec::new();
    r.push(a.to_owned());
    r.push(b.to_owned());
    r.push(c.to_owned());
    r.push(d.to_owned());
    r.push(e.to_owned());
    assert(r.deep_view() =~= seq![a@, b@, c@, d@, e@]);
    r
}

pub fn act(say: Vec<Line>, op: Op) -> (r: Action)
    ensures
        r@ == (ActionView { say: lines_view(say@), op: op@ }),
{
    Action { say, op }
}

} // verus!
