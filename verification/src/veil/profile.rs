//! The VeilKey shell profile.
use crate::plan::{lemma_replay_at, state_after, 
    act, fails_loudly, lemma_ends_within, out, replay, say0, say1, say2, Action, ActionView, Event, EventView,
    LineView, Op, OpView,
};
use crate::text::{contains, has_infix};
use crate::veil::names::{
    make_profile_content, make_profile_path, make_zshrc_path, profile_content, profile_path, zshrc_path,
};
use vstd::prelude::*;

verus! {

/// Where `setup_profile` stands.
#[derive(PartialEq, Eq, Structural, Clone, Copy, Debug)]
pub enum ProfileStage {
    /// Nothing done yet.
    Start,
    /// Waiting for the profile to be written.
    Written,
    /// Waiting for the zsh start-up file.
    Zshrc,
    /// The procedure is over.
    Finished,
}

/// The state of `setup_profile`: where it stands and the home directory.
#[derive(Debug)]
pub struct ProfileStep {
    pub stage: ProfileStage,
    pub home: String,
}

pub struct ProfileStepView {
    pub stage: ProfileStage,
    pub home: Seq<char>,
}

impl View for ProfileStep {
    type V = ProfileStepView;

    open spec fn view(&self) -> ProfileStepView {
        ProfileStepView { stage: self.stage, home: self.home@ }
    }
}

impl ProfileStep {
    /// A fresh procedure for the home directory `home`.
    pub fn new(home: String) -> (r: ProfileStep)
        ensures
            r@ == (ProfileStepView { stage: ProfileStage::Start, home: home@ }),
    {
        ProfileStep { stage: ProfileStage::Start, home }
    }
}

/// What `setup_profile` does on each reply: it writes the profile, then reads
/// `.zshrc` and tells whether it still has to source the profile.  It never
/// changes `.zshrc`.
pub open spec fn profile_next(s: ProfileStepView, e: EventView) -> (ProfileStepView, ActionView) {
    match s.stage {
        ProfileStage::Start => (
            ProfileStepView { stage: ProfileStage::Written, ..s },
            ActionView {
                say: seq![],
                op: OpView::WriteText {
                    path: profile_path(s.home),
                    content: profile_content(),
                    context: ".veilkey.sh 생성 실패"@,
                },
            },
        ),
        ProfileStage::Written => (
            ProfileStepView { stage: ProfileStage::Zshrc, ..s },
            ActionView {
                say: seq![LineView::Stdout("[veil] ~/.veilkey.sh 생성 완료"@)],
                op: OpView::ReadText { path: zshrc_path(s.home) },
            },
        ),
        ProfileStage::Zshrc => (
            ProfileStepView { stage: ProfileStage::Finished, ..s },
            ActionView {
                say: if !has_infix(e.text(), ".veilkey.sh"@) {
                    seq![
                        LineView::Stdout("[veil] .zshrc에 아래 라인을 추가하세요:"@),
                        LineView::Stdout("  source ~/.veilkey.sh"@),
                    ]
                } else {
                    seq![LineView::Stdout("[veil] .zshrc에 이미 source ~/.veilkey.sh 포함됨"@)]
                },
                op: OpView::Finish,
            },
        ),
        ProfileStage::Finished => (s, ActionView { say: seq![], op: OpView::Finish }),
    }
}

/// How many replies `setup_profile` can still take at most.
pub open spec fn profile_rank(s: ProfileStage) -> nat {
    match s {
        ProfileStage::Start => 3,
        ProfileStage::Written => 2,
        ProfileStage::Zshrc => 1,
        ProfileStage::Finished => 0,
    }
}

/// One step of writing the shell profile: given where the procedure stands and
/// the reply to its last operation, where it goes, what it prints and what it
/// asks for next.  A procedure starts from `ProfileStep::new` with `Event::Done`.
pub fn setup_profile(s: ProfileStep, e: Event) -> (r: (ProfileStep, Action))
    ensures
        (r.0@, r.1@) == profile_next(s@, e@),
{
    match s.stage {
        ProfileStage::Start => {
            let op = Op::WriteText {
                path: make_profile_path(s.home.as_str()),
                content: make_profile_content(),
                context: String::from_str(".veilkey.sh 생성 실패"),
            };
            (ProfileStep { stage: ProfileStage::Written, ..s }, act(say0(), op))
        },
        ProfileStage::Written => {
            let op = Op::ReadText { path: make_zshrc_path(s.home.as_str()) };
            (ProfileStep { stage: ProfileStage::Zshrc, ..s }, act(say1(out("[veil] ~/.veilkey.sh 생성 완료")), op))
        },
        ProfileStage::Zshrc => {
            let text = e.text();
            let say = if !contains(text.as_str(), ".veilkey.sh") {
                say2(out("[veil] .zshrc에 아래 라인을 추가하세요:"), out("  source ~/.veilkey.sh"))
            } else {
                say1(out("[veil] .zshrc에 이미 source ~/.veilkey.sh 포함됨"))
            };
            (ProfileStep { stage: ProfileStage::Finished, ..s }, act(say, Op::Finish))
        },
        ProfileStage::Finished => (s, act(say0(), Op::Finish)),
    }
}

/// Every reply brings writing the profile strictly closer to its end, the
/// procedure asks for nothing more exactly once it is over, and the only file
/// it writes is the profile of the home directory it was started with.
pub proof fn setup_profile_progresses(s: ProfileStepView, e: EventView)
    ensures
        ({
            let (t, a) = profile_next(s, e);
            &&& a.op.is_terminal() <==> t.stage == ProfileStage::Finished
            &&& fails_loudly(a)
            &&& s.stage != ProfileStage::Finished ==> profile_rank(t.stage) < profile_rank(s.stage)
            &&& t.home == s.home
            &&& a.op is WriteText ==> a.op->WriteText_path == profile_path(s.home)
        }),
{
}

/// `profile_next` as a transition function.
pub open spec fn profile_machine() -> spec_fn(ProfileStepView, EventView) -> (ProfileStepView, ActionView) {
    |s: ProfileStepView, e: EventView| profile_next(s, e)
}

/// Writing the shell profile ends, by success or by failure, within 3 replies, whatever they are.
pub proof fn setup_profile_ends(home: Seq<char>, replies: Seq<EventView>)
    requires
        replies.len() >= 3,
    ensures
        exists|k: int|
            0 <= k < 3 && #[trigger] replay(profile_machine(), ProfileStepView { stage: ProfileStage::Start, home }, replies)[k].op.is_terminal(),
{
    let rank = |s: ProfileStepView| profile_rank(s.stage);
    let done = |s: ProfileStepView| s.stage == ProfileStage::Finished;
    assert forall|s: ProfileStepView, e: EventView|
        #[trigger] profile_machine()(s, e).1.op.is_terminal() <==> done(profile_machine()(s, e).0) by {
        setup_profile_progresses(s, e);
    }
    assert forall|s: ProfileStepView, e: EventView|
        !done(s) implies rank(#[trigger] profile_machine()(s, e).0) < rank(s) by {
        setup_profile_progresses(s, e);
    }
    lemma_ends_within(profile_machine(), rank, done, ProfileStepView { stage: ProfileStage::Start, home }, replies);
}

/// What writing the profile does when handed `replies`, the first of which starts it.
pub open spec fn profile_run(home: Seq<char>, replies: Seq<EventView>) -> Seq<ActionView> {
    replay(profile_machine(), ProfileStepView { stage: ProfileStage::Start, home }, replies)
}

/// A whole run of writing the profile: it writes the profile of the home
/// directory with the profile's content, reads that directory's `.zshrc`, and
/// asks for the `source` line exactly when `.zshrc` does not mention
/// `.veilkey.sh`; it ends there.
pub proof fn setup_profile_run(home: Seq<char>, replies: Seq<EventView>)
    requires
        replies.len() >= 3,
    ensures
        ({
            let run = profile_run(home, replies);
            &&& run[0].op == OpView::WriteText {
                path: home + "/.veilkey.sh"@,
                content: profile_content(),
                context: ".veilkey.sh 생성 실패"@,
            }
            &&& run[1].op == OpView::ReadText { path: home + "/.zshrc"@ }
            &&& run[2].op == OpView::Finish
            &&& !has_infix(replies[2].text(), ".veilkey.sh"@) ==> run[2].say == seq![
                LineView::Stdout("[veil] .zshrc에 아래 라인을 추가하세요:"@),
                LineView::Stdout("  source ~/.veilkey.sh"@),
            ]
            &&& has_infix(replies[2].text(), ".veilkey.sh"@) ==> run[2].say == seq![
                LineView::Stdout("[veil] .zshrc에 이미 source ~/.veilkey.sh 포함됨"@),
            ]
        }),
{
    let start = ProfileStepView { stage: ProfileStage::Start, home };
    let m = profile_machine();
    reveal_with_fuel(state_after, 4);
    assert forall|j: int| 0 <= j < 3 implies #[trigger] profile_run(home, replies)[j] == m(
        state_after(m, start, replies, j as nat),
        replies[j],
    ).1 by {
        lemma_replay_at(m, start, replies, j);
    }
}

} // verus!
