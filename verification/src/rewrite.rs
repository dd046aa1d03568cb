//! The commit-history rewrite engine.
//!
//! Changing the message of an existing commit takes one of two strategies:
//! an in-place amend when the target is the current tip, or a scripted,
//! non-interactive history rewrite of the range starting at the target's
//! parent. Before either runs, the target is classified from read-only
//! repository facts, and everything but the three admissible situations
//! (tip / reachable single-parent ancestor / merge) is rejected.
//!
//! The binary layer gathers the repository facts and executes the chosen
//! plan; every decision is made here.

use vstd::prelude::*;
use vstd::assert_by_contradiction;
use crate::strutil::{spec_decimal, u64_to_string};

verus! {

/// The closed error taxonomy surfaced to callers of the rewrite engine.
#[derive(Debug, PartialEq, Eq, Structural, Clone)]
pub enum RewriteError {
    /// The target reference does not resolve to an existing commit.
    UnknownCommit,
    /// The target has more than one parent; rewording it is rejected by design.
    UnsupportedMergeRewrite,
    /// The target is not reachable by walking the tip's parent links.
    NotOnCurrentBranch,
    /// The in-place amend of the tip failed with the given exit code.
    ToolExecutionFailed { exit_code: i32 },
    /// The scripted rewrite exited non-zero, most commonly on a replay conflict.
    RewriteConflict,
    /// Creating or marking a helper script failed before any mutation occurred.
    ResourceError,
}

/// Read-only facts about the repository, gathered once per rewrite call.
#[derive(Debug)]
pub struct RepoFacts {
    /// Canonical identity the target reference resolves to, if any.
    pub target_id: Option<String>,
    /// Canonical identity of the current tip.
    pub tip_id: String,
    /// Number of parents of the target commit.
    pub parent_count: usize,
    /// Whether the target is reachable by following parent links from the tip.
    pub is_ancestor_of_tip: bool,
}

/// A fully classified rewrite target. Values of this type exist only for
/// the admissible situations: the current tip, or a single-parent ancestor
/// of the tip.
#[derive(Debug)]
pub struct RewriteTarget {
    /// The reference the caller supplied.
    pub ref_name: String,
    /// The canonical identity that reference resolves to.
    pub identity: String,
    /// Whether the target is the current tip (decided by identity, never by
    /// comparing reference strings).
    pub is_tip: bool,
    /// Always false here: merge targets are rejected during classification.
    pub is_merge: bool,
    /// Whether the target is reachable from the tip (true for the tip itself).
    pub is_ancestor_of_tip: bool,
}

/// The five ways a target reference can be classified.
#[derive(Debug)]
pub enum Classification {
    /// The target is the current tip.
    Tip,
    /// The target is a single-parent proper ancestor of the tip.
    NonTipAncestor,
    /// The target reference does not resolve.
    Unknown,
    /// The target is a merge commit (and not the tip).
    Merge,
    /// The target is neither the tip nor one of its ancestors.
    NotOnBranch,
}

/// The classification decision as a function of the repository facts.
///
/// A resolved target whose identity equals the tip's is the tip, whatever
/// the parent count or ancestry facts say; merge detection applies only to
/// non-tip targets; ancestry applies only to non-tip, non-merge targets.
pub open spec fn spec_classify(
    target_id: Option<Seq<char>>,
    tip_id: Seq<char>,
    parent_count: nat,
    is_ancestor_of_tip: bool,
) -> Classification {
    match target_id {
        None => Classification::Unknown,
        Some(id) => if id == tip_id {
            Classification::Tip
        } else if parent_count > 1 {
            Classification::Merge
        } else if !is_ancestor_of_tip {
            Classification::NotOnBranch
        } else {
            Classification::NonTipAncestor
        },
    }
}

/// View of a `RepoFacts` value as the arguments of `spec_classify`.
pub open spec fn spec_classify_facts(facts: RepoFacts) -> Classification {
    spec_classify(
        match facts.target_id {
            Some(id) => Some(id@),
            None => None,
        },
        facts.tip_id@,
        facts.parent_count as nat,
        facts.is_ancestor_of_tip,
    )
}

/// Classify a rewrite target from read-only repository facts, rejecting
/// everything but the admissible situations. No repository mutation may be
/// attempted before this has run; its result fully determines which rewrite
/// strategy may follow.
pub fn classify(target_ref: &String, facts: &RepoFacts) -> (r: Result<
    RewriteTarget,
    RewriteError,
>)
    ensures
        r is Ok <==> (spec_classify_facts(*facts) is Tip || spec_classify_facts(*facts)
            is NonTipAncestor),
        spec_classify_facts(*facts) is Unknown <==> r == Result::<
            RewriteTarget,
            RewriteError,
        >::Err(RewriteError::UnknownCommit),
        spec_classify_facts(*facts) is Merge <==> r == Result::<
            RewriteTarget,
            RewriteError,
        >::Err(RewriteError::UnsupportedMergeRewrite),
        spec_classify_facts(*facts) is NotOnBranch <==> r == Result::<
            RewriteTarget,
            RewriteError,
        >::Err(RewriteError::NotOnCurrentBranch),
        r matches Ok(t) ==> {
            &&& t.ref_name@ == target_ref@
            &&& facts.target_id matches Some(id) && t.identity@ == id@
            &&& t.is_tip <==> spec_classify_facts(*facts) is Tip
            &&& !t.is_merge
            &&& t.is_ancestor_of_tip
        },
{
    match &facts.target_id {
        None => Err(RewriteError::UnknownCommit),
        Some(id) => {
            if (*id).eq(&facts.tip_id) {
                Ok(RewriteTarget {
                    ref_name: target_ref.clone(),
                    identity: id.clone(),
                    is_tip: true,
                    is_merge: false,
                    is_ancestor_of_tip: true,
                })
            } else if facts.parent_count > 1 {
                Err(RewriteError::UnsupportedMergeRewrite)
            } else if !facts.is_ancestor_of_tip {
                Err(RewriteError::NotOnCurrentBranch)
            } else {
                Ok(RewriteTarget {
                    ref_name: target_ref.clone(),
                    identity: id.clone(),
                    is_tip: false,
                    is_merge: false,
                    is_ancestor_of_tip: true,
                })
            }
        },
    }
}

/// Classifying the current tip always yields the tip case: the decision
/// looks only at the identity comparison, never at parent counts or
/// ancestry, so those facts cannot make it fail.
pub proof fn lemma_tip_classification_is_identity_only(
    target_id: Seq<char>,
    tip_id: Seq<char>,
    parent_count: nat,
    is_ancestor_of_tip: bool,
)
    requires
        target_id == tip_id,
    ensures
        spec_classify(Some(target_id), tip_id, parent_count, is_ancestor_of_tip)
            is Tip,
{
}

/// A resolved non-tip commit with more than one parent is always rejected
/// as an unsupported merge rewrite, whatever its ancestry.
pub proof fn lemma_merge_rejection(
    target_id: Seq<char>,
    tip_id: Seq<char>,
    parent_count: nat,
    is_ancestor_of_tip: bool,
)
    requires
        target_id != tip_id,
        parent_count > 1,
    ensures
        spec_classify(Some(target_id), tip_id, parent_count, is_ancestor_of_tip)
            is Merge,
{
}

/// A resolved non-tip, non-merge commit that is not reachable from the tip
/// is always rejected as not being on the current branch.
pub proof fn lemma_non_ancestor_rejection(
    target_id: Seq<char>,
    tip_id: Seq<char>,
    parent_count: nat,
)
    requires
        target_id != tip_id,
        parent_count <= 1,
    ensures
        spec_classify(Some(target_id), tip_id, parent_count, false) is NotOnBranch,
{
}

/// How an admissible rewrite is to be executed. At most one strategy runs
/// per call, and which one is fully determined by the classification.
#[derive(Debug)]
pub enum RewritePlan {
    /// Amend the tip's message in place; no temporary resources involved.
    AmendTip { message: String, suppress_output: bool },
    /// Drive the scripted, non-interactive history rewrite.
    Scripted(ScriptedRewritePlan),
}

/// Everything the scripted path needs before touching the repository.
#[derive(Debug)]
pub struct ScriptedRewritePlan {
    /// Lower bound of the replay range: the target reference plus `"^"`.
    /// The range starts immediately after the target's parent, so the
    /// target is always the first entry of the generated step list.
    pub rebase_base: String,
    /// File name for the disposable step-editor helper, unique per process.
    pub sequence_editor_name: String,
    /// File name for the disposable message-editor helper, unique per process.
    pub message_editor_name: String,
    /// The replacement message, to be delivered out of band (through the
    /// process environment), never embedded in a script body.
    pub message: String,
    pub suppress_output: bool,
}

/// Name of the disposable step-editor script for process `pid`.
pub fn sequence_editor_name(pid: u64) -> (r: String)
    ensures
        r@ == "cgen-seq-editor-"@ + spec_decimal(pid as nat) + ".sh"@,
{
    let mut s = ("cgen-seq-editor-").to_owned();
    let digits = u64_to_string(pid);
    s.append(digits.as_str());
    s.append(".sh");
    s
}

/// Name of the disposable message-editor script for process `pid`.
pub fn message_editor_name(pid: u64) -> (r: String)
    ensures
        r@ == "cgen-msg-editor-"@ + spec_decimal(pid as nat) + ".sh"@,
{
    let mut s = ("cgen-msg-editor-").to_owned();
    let digits = u64_to_string(pid);
    s.append(digits.as_str());
    s.append(".sh");
    s
}

/// Helper-script names are unique per process: two processes never
/// collide on a script name, and within one process the two helpers
/// never collide with each other.
pub proof fn lemma_helper_names_collision_free(pid1: nat, pid2: nat)
    requires
        pid1 != pid2,
    ensures
        ("cgen-seq-editor-")@ + spec_decimal(pid1) + (".sh")@ != ("cgen-seq-editor-")@
            + spec_decimal(pid2) + (".sh")@,
        ("cgen-msg-editor-")@ + spec_decimal(pid1) + (".sh")@ != ("cgen-msg-editor-")@
            + spec_decimal(pid2) + (".sh")@,
        ("cgen-seq-editor-")@ + spec_decimal(pid1) + (".sh")@ != ("cgen-msg-editor-")@
            + spec_decimal(pid1) + (".sh")@,
{
    crate::strutil::lemma_decimal_value_round_trip(pid1);
    crate::strutil::lemma_decimal_value_round_trip(pid2);
    let d1 = spec_decimal(pid1);
    let d2 = spec_decimal(pid2);
    let seq_pre = ("cgen-seq-editor-")@;
    let msg_pre = ("cgen-msg-editor-")@;
    let suf = (".sh")@;
    assert_by_contradiction!(seq_pre + d1 + suf != seq_pre + d2 + suf, {
        assert((seq_pre + d1 + suf).len() == (seq_pre + d2 + suf).len());
        assert(d1.len() == d2.len());
        assert(d1 =~= d2) by {
            assert forall|i: int| 0 <= i < d1.len() implies d1[i] == d2[i] by {
                assert((seq_pre + d1 + suf)[seq_pre.len() + i] == d1[i]);
                assert((seq_pre + d2 + suf)[seq_pre.len() + i] == d2[i]);
            }
        }
    });
    assert_by_contradiction!(msg_pre + d1 + suf != msg_pre + d2 + suf, {
        assert((msg_pre + d1 + suf).len() == (msg_pre + d2 + suf).len());
        assert(d1.len() == d2.len());
        assert(d1 =~= d2) by {
            assert forall|i: int| 0 <= i < d1.len() implies d1[i] == d2[i] by {
                assert((msg_pre + d1 + suf)[msg_pre.len() + i] == d1[i]);
                assert((msg_pre + d2 + suf)[msg_pre.len() + i] == d2[i]);
            }
        }
    });
    reveal_strlit("cgen-seq-editor-");
    reveal_strlit("cgen-msg-editor-");
    assert(seq_pre.len() == 16);
    assert(msg_pre.len() == 16);
    assert(seq_pre[5] == 's' && msg_pre[5] == 'm');
    assert((seq_pre + d1 + suf)[5] == 's');
    assert((msg_pre + d1 + suf)[5] == 'm');
}

/// Decide how to rewrite the message of `target_ref`, or reject the call.
/// This is the single entry point's decision procedure: it classifies the
/// target and picks exactly one strategy; no mutation may happen before it
/// returns `Ok`.
pub fn plan_rewrite(
    target_ref: &String,
    facts: &RepoFacts,
    message: &String,
    suppress_output: bool,
    pid: u64,
) -> (r: Result<RewritePlan, RewriteError>)
    ensures
        r is Ok <==> (spec_classify_facts(*facts) is Tip || spec_classify_facts(*facts)
            is NonTipAncestor),
        spec_classify_facts(*facts) is Unknown <==> r == Result::<
            RewritePlan,
            RewriteError,
        >::Err(RewriteError::UnknownCommit),
        spec_classify_facts(*facts) is Merge <==> r == Result::<
            RewritePlan,
            RewriteError,
        >::Err(RewriteError::UnsupportedMergeRewrite),
        spec_classify_facts(*facts) is NotOnBranch <==> r == Result::<
            RewritePlan,
            RewriteError,
        >::Err(RewriteError::NotOnCurrentBranch),
        spec_classify_facts(*facts) is Tip <==> (r matches Ok(p) && p matches
            RewritePlan::AmendTip { message: m, suppress_output: so } && m@ == message@
            && so == suppress_output),
        spec_classify_facts(*facts) is NonTipAncestor <==> (r matches Ok(p) && p matches
            RewritePlan::Scripted(sp) && sp.rebase_base@ == target_ref@ + "^"@
            && sp.message@ == message@ && sp.suppress_output == suppress_output
            && sp.sequence_editor_name@ == "cgen-seq-editor-"@ + spec_decimal(pid as nat)
            + ".sh"@ && sp.message_editor_name@ == "cgen-msg-editor-"@ + spec_decimal(
            pid as nat,
        ) + ".sh"@),
{
    let target = classify(target_ref, facts)?;
    if target.is_tip {
        Ok(RewritePlan::AmendTip { message: message.clone(), suppress_output })
    } else {
        let mut base = target_ref.clone();
        base.append("^");
        Ok(
            RewritePlan::Scripted(
                ScriptedRewritePlan {
                    rebase_base: base,
                    sequence_editor_name: sequence_editor_name(pid),
                    message_editor_name: message_editor_name(pid),
                    message: message.clone(),
                    suppress_output,
                },
            ),
        )
    }
}

/// The action keyword that marks a normal replay in a generated step list.
pub open spec fn spec_pick_prefix() -> Seq<u8> {
    seq![112u8, 105u8, 99u8, 107u8, 32u8]
}

/// The action keyword that stops the replay to let the message be edited.
pub open spec fn spec_reword_prefix() -> Seq<u8> {
    seq![114u8, 101u8, 119u8, 111u8, 114u8, 100u8, 32u8]
}

/// Whether a step-list line marks a normal replay.
pub open spec fn spec_is_pick_line(l: Seq<u8>) -> bool {
    l.len() >= 5 && l.take(5) == spec_pick_prefix()
}

/// Whether any line of a step list marks a normal replay.
pub open spec fn spec_has_pick(ls: Seq<Seq<u8>>) -> bool {
    exists|i: int| 0 <= i < ls.len() && spec_is_pick_line(ls[i])
}

/// Whether `k` is the index of the first replay line of a step list.
pub open spec fn spec_is_first_pick(ls: Seq<Seq<u8>>, k: int) -> bool {
    &&& 0 <= k < ls.len()
    &&& spec_is_pick_line(ls[k])
    &&& forall|i: int| 0 <= i < k ==> !spec_is_pick_line(ls[i])
}

/// The relation between a step list and its rewritten form when line `k`
/// is the one being reworded: that line's action keyword changes from the
/// replay keyword to the reword keyword, its remainder is kept
/// byte-for-byte, and every other line is byte-identical.
pub open spec fn spec_reworded(ls: Seq<Seq<u8>>, out: Seq<Seq<u8>>, k: int) -> bool {
    &&& out.len() == ls.len()
    &&& out[k] == spec_reword_prefix() + ls[k].skip(5)
    &&& forall|i: int| 0 <= i < ls.len() && i != k ==> out[i] == ls[i]
}

/// Whether a step-list line marks a normal replay.
fn line_is_pick(l: &Vec<u8>) -> (r: bool)
    ensures
        r == spec_is_pick_line(l@),
{
    if l.len() < 5 {
        return false;
    }
    let r = l[0] == 112u8 && l[1] == 105u8 && l[2] == 99u8 && l[3] == 107u8 && l[4] == 32u8;
    proof {
        assert(l@.take(5) =~= seq![l@[0], l@[1], l@[2], l@[3], l@[4]]);
        if r {
            assert(l@.take(5) =~= spec_pick_prefix());
        }
    }
    r
}

/// Copy a line byte for byte.
fn copy_line(l: &Vec<u8>) -> (r: Vec<u8>)
    ensures
        r@ == l@,
{
    let mut r: Vec<u8> = Vec::new();
    let mut i: usize = 0;
    while i < l.len()
        invariant
            0 <= i <= l@.len(),
            r@ == l@.take(i as int),
        decreases l@.len() - i,
    {
        r.push(l[i]);
        proof {
            assert(r@ =~= l@.take(i as int + 1));
        }
        i = i + 1;
    }
    proof {
        assert(l@.take(l@.len() as int) =~= l@);
    }
    r
}

/// Replace a replay line's action keyword by the reword keyword, keeping
/// the commit identity and title that follow it byte-for-byte.
fn reword_line(l: &Vec<u8>) -> (r: Vec<u8>)
    requires
        spec_is_pick_line(l@),
    ensures
        r@ == spec_reword_prefix() + l@.skip(5),
{
    let mut r: Vec<u8> = Vec::new();
    r.push(114u8);
    r.push(101u8);
    r.push(119u8);
    r.push(111u8);
    r.push(114u8);
    r.push(100u8);
    r.push(32u8);
    proof {
        assert(r@ =~= spec_reword_prefix());
    }
    let mut i: usize = 5;
    while i < l.len()
        invariant
            5 <= i <= l@.len(),
            r@ == spec_reword_prefix() + l@.subrange(5, i as int),
        decreases l@.len() - i,
    {
        r.push(l[i]);
        proof {
            assert(r@ =~= spec_reword_prefix() + l@.subrange(5, i as int + 1));
        }
        i = i + 1;
    }
    proof {
        assert(l@.subrange(5, l@.len() as int) =~= l@.skip(5));
    }
    r
}

/// Rewrite a generated step list so that only its first replay line is
/// marked for rewording. Every other line is left byte-for-byte unchanged;
/// a list without a replay line comes back identical. The replay range is
/// constructed so that the rewrite target is always the first replay entry,
/// which makes "reword the first replay line" and "reword the target's
/// line" equivalent.
pub fn reword_first_pick(lines: &Vec<Vec<u8>>) -> (out: Vec<Vec<u8>>)
    ensures
        out.deep_view().len() == lines.deep_view().len(),
        !spec_has_pick(lines.deep_view()) ==> out.deep_view() == lines.deep_view(),
        spec_has_pick(lines.deep_view()) ==> exists|k: int|
            spec_is_first_pick(lines.deep_view(), k),
        forall|k: int|
            spec_is_first_pick(lines.deep_view(), k) ==> spec_reworded(
                lines.deep_view(),
                out.deep_view(),
                k,
            ),
{
    let ghost lv: Seq<Seq<u8>> = lines.deep_view();
    let mut out: Vec<Vec<u8>> = Vec::new();
    let mut i: usize = 0;
    let mut found: bool = false;
    let ghost mut fk: int = 0;
    while i < lines.len()
        invariant
            0 <= i <= lv.len() == lines@.len(),
            lv == lines.deep_view(),
            out.deep_view().len() == i,
            !found ==> forall|j: int| 0 <= j < i ==> !spec_is_pick_line(lv[j]),
            !found ==> forall|j: int| 0 <= j < i ==> out.deep_view()[j] == lv[j],
            found ==> spec_is_first_pick(lv, fk) && fk < i,
            found ==> out.deep_view()[fk] == spec_reword_prefix() + lv[fk].skip(5),
            found ==> forall|j: int|
                0 <= j < i && j != fk ==> out.deep_view()[j] == lv[j],
        decreases lines@.len() - i,
    {
        let line = &lines[i];
        proof {
            assert(lv[i as int] == line@);
        }
        if !found && line_is_pick(line) {
            out.push(reword_line(line));
            proof {
                fk = i as int;
            }
            found = true;
        } else {
            out.push(copy_line(line));
        }
        i = i + 1;
    }
    proof {
        if found {
            assert(spec_has_pick(lv));
            assert forall|k: int| spec_is_first_pick(lv, k) implies spec_reworded(
                lv,
                out.deep_view(),
                k,
            ) by {
                assert(k == fk);
            }
        } else {
            assert(!spec_has_pick(lv));
            assert(out.deep_view() =~~= lv);
        }
    }
    out
}

/// In a rewritten step list, exactly one line changed: the first replay
/// line, whose keyword became the reword keyword, and whose remainder --
/// the commit identity and title of the target -- is preserved. The
/// changed line really differs from the original.
pub proof fn lemma_single_line_changed(ls: Seq<Seq<u8>>, out: Seq<Seq<u8>>, k: int)
    requires
        spec_is_first_pick(ls, k),
        spec_reworded(ls, out, k),
    ensures
        out[k] != ls[k],
        out[k].skip(7) == ls[k].skip(5),
        forall|i: int| 0 <= i < ls.len() && i != k ==> out[i] == ls[i],
{
    assert(ls[k][0] == 112u8);
    assert(out[k][0] == 114u8);
    assert(out[k].skip(7) =~= ls[k].skip(5));
}

/// The phases of one scripted rewrite call.
#[derive(Debug)]
pub enum RewritePhase {
    /// Nothing has happened yet.
    Idle,
    /// Both helper scripts exist on disk with executable permissions.
    ScriptsWritten,
    /// The history-rewrite operation is running.
    OperationRunning,
    /// The operation finished, successfully or not.
    OperationFinished,
    /// The helper scripts have been removed. Every call ends here,
    /// whatever happened before.
    CleanedUp,
}

/// The progress of one scripted rewrite call, tracked so that the helper
/// scripts are provably removed on every exit path -- success, failure, or
/// an early error before the operation was ever invoked.
#[derive(Debug)]
pub struct ScriptedRewriteSession {
    pub phase: RewritePhase,
    /// Whether helper-script artifacts currently exist.
    pub scripts_present: bool,
    /// Exit status of the rewrite operation, once it has run.
    pub operation_succeeded: Option<bool>,
    /// Whether creating or marking a helper script failed.
    pub resource_failed: bool,
}

impl ScriptedRewriteSession {
    /// The session invariant: scripts never survive cleanup, an outcome
    /// exists only once the operation has finished, and the operation
    /// never ran after a resource failure.
    pub open spec fn wf(self) -> bool {
        &&& self.phase is CleanedUp ==> !self.scripts_present
        &&& self.operation_succeeded is Some ==> (self.phase is OperationFinished
            || self.phase is CleanedUp)
        &&& self.phase is Idle ==> !self.scripts_present
        &&& self.resource_failed ==> self.operation_succeeded is None
    }

    /// Start a scripted rewrite call.
    pub fn start() -> (s: Self)
        ensures
            s.wf(),
            s.phase is Idle,
            !s.scripts_present,
            s.operation_succeeded is None,
            !s.resource_failed,
    {
        ScriptedRewriteSession {
            phase: RewritePhase::Idle,
            scripts_present: false,
            operation_succeeded: None,
            resource_failed: false,
        }
    }

    /// Record that both helper scripts were created and marked executable.
    pub fn scripts_written(&mut self)
        requires
            old(self).wf(),
            old(self).phase is Idle,
        ensures
            final(self).wf(),
            final(self).phase is ScriptsWritten,
            final(self).scripts_present,
            final(self).operation_succeeded == old(self).operation_succeeded,
            final(self).resource_failed == old(self).resource_failed,
    {
        self.phase = RewritePhase::ScriptsWritten;
        self.scripts_present = true;
    }

    /// Record that creating or marking a helper script failed. The
    /// operation must never be started after this.
    pub fn resource_failure(&mut self)
        requires
            old(self).wf(),
            old(self).phase is Idle || old(self).phase is ScriptsWritten,
        ensures
            final(self).wf(),
            final(self).phase == old(self).phase,
            final(self).scripts_present == old(self).scripts_present,
            final(self).resource_failed,
            final(self).operation_succeeded is None,
    {
        self.resource_failed = true;
    }

    /// Record that the history-rewrite operation was started. Requires the
    /// scripts to be in place and no earlier resource failure.
    pub fn operation_started(&mut self)
        requires
            old(self).wf(),
            old(self).phase is ScriptsWritten,
            !old(self).resource_failed,
        ensures
            final(self).wf(),
            final(self).phase is OperationRunning,
            final(self).scripts_present == old(self).scripts_present,
            final(self).operation_succeeded is None,
            !final(self).resource_failed,
    {
        self.phase = RewritePhase::OperationRunning;
    }

    /// Record the operation's exit status.
    pub fn operation_finished(&mut self, succeeded: bool)
        requires
            old(self).wf(),
            old(self).phase is OperationRunning,
            !old(self).resource_failed,
        ensures
            final(self).wf(),
            final(self).phase is OperationFinished,
            final(self).scripts_present == old(self).scripts_present,
            final(self).operation_succeeded == Some(succeeded),
            !final(self).resource_failed,
    {
        self.phase = RewritePhase::OperationFinished;
        self.operation_succeeded = Some(succeeded);
    }

    /// Remove the helper scripts. Legal in every phase -- this is the
    /// finalizer that every exit path must reach, not a happy-path step.
    pub fn cleanup(&mut self)
        requires
            old(self).wf(),
        ensures
            final(self).wf(),
            final(self).phase is CleanedUp,
            !final(self).scripts_present,
            final(self).operation_succeeded == old(self).operation_succeeded,
            final(self).resource_failed == old(self).resource_failed,
    {
        self.phase = RewritePhase::CleanedUp;
        self.scripts_present = false;
    }

    /// The normalized result of the call. Only available after cleanup, so
    /// a caller can never observe an outcome while helper artifacts might
    /// still exist.
    pub fn conclude(&self) -> (r: Result<(), RewriteError>)
        requires
            self.wf(),
            self.phase is CleanedUp,
        ensures
            r is Ok <==> (!self.resource_failed && self.operation_succeeded == Some(
                true,
            )),
            self.resource_failed ==> r == Result::<(), RewriteError>::Err(
                RewriteError::ResourceError,
            ),
            !self.resource_failed && self.operation_succeeded == Some(false) ==> r
                == Result::<(), RewriteError>::Err(RewriteError::RewriteConflict),
            !self.resource_failed && self.operation_succeeded is None ==> r
                == Result::<(), RewriteError>::Err(RewriteError::ResourceError),
    {
        if self.resource_failed {
            Err(RewriteError::ResourceError)
        } else {
            match self.operation_succeeded {
                Some(true) => Ok(()),
                Some(false) => Err(RewriteError::RewriteConflict),
                None => Err(RewriteError::ResourceError),
            }
        }
    }
}

/// The normalized result of the in-place amend of the tip: success on a
/// zero exit, else the tool's exit code, surfaced for diagnostics.
pub fn amend_outcome(exit_ok: bool, exit_code: i32) -> (r: Result<(), RewriteError>)
    ensures
        r is Ok <==> exit_ok,
        !exit_ok ==> r == Result::<(), RewriteError>::Err(
            RewriteError::ToolExecutionFailed { exit_code },
        ),
{
    if exit_ok {
        Ok(())
    } else {
        Err(RewriteError::ToolExecutionFailed { exit_code })
    }
}

/// The cleanup guarantee: whenever a scripted rewrite call has reached the
/// point where its result can be observed, no helper-script artifact
/// remains, whether the operation succeeded, failed, or never ran.
pub proof fn lemma_cleanup_guarantee(s: ScriptedRewriteSession)
    requires
        s.wf(),
        s.phase is CleanedUp,
    ensures
        !s.scripts_present,
{
}

/// A list of lines, each followed by a newline byte when joined.
pub open spec fn spec_join_lines(ls: Seq<Seq<u8>>) -> Seq<u8>
    decreases ls.len(),
{
    if ls.len() == 0 {
        Seq::empty()
    } else {
        spec_join_lines(ls.drop_last()) + ls.last() + seq![10u8]
    }
}

/// Whether no line contains a newline byte.
pub open spec fn spec_lines_unbroken(ls: Seq<Seq<u8>>) -> bool {
    forall|i: int, j: int|
        0 <= i < ls.len() && 0 <= j < ls[i].len() ==> #[trigger] ls[i][j] != 10u8
}

/// `text`, with a final newline added if it is non-empty and lacks one.
pub open spec fn spec_terminated(text: Seq<u8>) -> Seq<u8> {
    if text.len() == 0 || text.last() == 10u8 {
        text
    } else {
        text.push(10u8)
    }
}

/// Split a step-list file into its lines, dropping the newline
/// terminators. The result is the unique newline-free line list whose
/// rejoining gives the input back (with a terminating newline added if
/// the input lacked one).
pub fn split_lines(text: &Vec<u8>) -> (out: Vec<Vec<u8>>)
    ensures
        spec_lines_unbroken(out.deep_view()),
        spec_join_lines(out.deep_view()) == spec_terminated(text@),
{
    let mut out: Vec<Vec<u8>> = Vec::new();
    let mut cur: Vec<u8> = Vec::new();
    let mut i: usize = 0;
    while i < text.len()
        invariant
            0 <= i <= text@.len(),
            spec_lines_unbroken(out.deep_view()),
            forall|j: int| 0 <= j < cur@.len() ==> cur@[j] != 10u8,
            spec_join_lines(out.deep_view()) + cur@ == text@.take(i as int),
        decreases text@.len() - i,
    {
        let b = text[i];
        if b == 10u8 {
            let ghost prev = out.deep_view();
            let ghost curv = cur@;
            out.push(cur);
            proof {
                assert(out.deep_view() =~~= prev.push(curv));
                assert(prev.push(curv).drop_last() =~~= prev);
                assert(spec_join_lines(out.deep_view()) == spec_join_lines(prev) + curv
                    + seq![10u8]);
                assert(spec_join_lines(out.deep_view()) =~= text@.take(i as int + 1));
                assert forall|a: int, c: int|
                    0 <= a < out.deep_view().len() && 0 <= c
                        < out.deep_view()[a].len() implies #[trigger] out.deep_view()[a][c]
                    != 10u8 by {
                    if a < prev.len() {
                        assert(out.deep_view()[a] == prev[a]);
                    } else {
                        assert(out.deep_view()[a] == curv);
                    }
                }
            }
            cur = Vec::new();
        } else {
            let ghost oldcur = cur@;
            cur.push(b);
            proof {
                assert(text@.take(i as int + 1) =~= text@.take(i as int).push(
                    text@[i as int],
                ));
                assert(spec_join_lines(out.deep_view()) + cur@ =~= (spec_join_lines(
                    out.deep_view(),
                ) + oldcur).push(b));
            }
        }
        i = i + 1;
    }
    proof {
        assert(text@.take(text@.len() as int) =~= text@);
    }
    if cur.len() > 0 {
        let ghost prev = out.deep_view();
        let ghost curv = cur@;
        proof {
            assert(text@.len() > 0 && text@.last() != 10u8);
        }
        out.push(cur);
        proof {
            assert(out.deep_view() =~~= prev.push(curv));
            assert(prev.push(curv).drop_last() =~~= prev);
            assert(spec_join_lines(out.deep_view()) == spec_join_lines(prev) + curv
                + seq![10u8]);
            assert(spec_join_lines(out.deep_view()) =~= spec_terminated(text@));
            assert forall|a: int, c: int|
                0 <= a < out.deep_view().len() && 0 <= c
                    < out.deep_view()[a].len() implies #[trigger] out.deep_view()[a][c]
                != 10u8 by {
                if a < prev.len() {
                    assert(out.deep_view()[a] == prev[a]);
                } else {
                    assert(out.deep_view()[a] == curv);
                }
            }
        }
    } else {
        proof {
            assert(spec_join_lines(out.deep_view()) + cur@ =~= spec_join_lines(
                out.deep_view(),
            ));
            assert(text@.len() == 0 || text@.last() == 10u8);
        }
    }
    out
}

/// Join lines back into file bytes, terminating each line with a newline.
pub fn join_lines(lines: &Vec<Vec<u8>>) -> (out: Vec<u8>)
    ensures
        out@ == spec_join_lines(lines.deep_view()),
{
    let mut out: Vec<u8> = Vec::new();
    let mut i: usize = 0;
    while i < lines.len()
        invariant
            0 <= i <= lines@.len(),
            out@ == spec_join_lines(lines.deep_view().take(i as int)),
        decreases lines@.len() - i,
    {
        let line = &lines[i];
        let mut j: usize = 0;
        while j < line.len()
            invariant
                0 <= j <= line@.len(),
                line@ == lines.deep_view()[i as int],
                i < lines@.len(),
                out@ == spec_join_lines(lines.deep_view().take(i as int)) + line@.take(
                    j as int,
                ),
            decreases line@.len() - j,
        {
            out.push(line[j]);
            proof {
                assert(out@ =~= spec_join_lines(lines.deep_view().take(i as int))
                    + line@.take(j as int + 1));
            }
            j = j + 1;
        }
        out.push(10u8);
        proof {
            assert(lines.deep_view().take(i as int + 1).drop_last() =~= lines.deep_view()
                .take(i as int));
            assert(line@.take(line@.len() as int) =~= line@);
            assert(out@ =~= spec_join_lines(lines.deep_view().take(i as int + 1)));
        }
        i = i + 1;
    }
    proof {
        assert(lines.deep_view().take(lines@.len() as int) =~= lines.deep_view());
    }
    out
}

/// A path for use in an environment value handed to the subprocess: every
/// backslash is replaced by a forward slash, all other bytes are kept.
pub open spec fn spec_slashed(p: Seq<u8>) -> Seq<u8> {
    Seq::new(p.len(), |i: int| if p[i] == 92u8 { 47u8 } else { p[i] })
}

/// Normalize a helper-script path's separators for the subprocess
/// configuration: backslashes become forward slashes.
pub fn script_command(path: &Vec<u8>) -> (r: Vec<u8>)
    ensures
        r@ == spec_slashed(path@),
{
    let mut r: Vec<u8> = Vec::new();
    let mut i: usize = 0;
    while i < path.len()
        invariant
            0 <= i <= path@.len(),
            r@ == spec_slashed(path@).take(i as int),
        decreases path@.len() - i,
    {
        let b = path[i];
        if b == 92u8 {
            r.push(47u8);
        } else {
            r.push(b);
        }
        proof {
            assert(r@ =~= spec_slashed(path@).take(i as int + 1));
        }
        i = i + 1;
    }
    proof {
        assert(spec_slashed(path@).take(path@.len() as int) =~= spec_slashed(path@));
    }
    r
}

/// Body of the step-editor helper script. It rewrites only the first
/// replay line of the step list it is handed into a reword line, writing
/// its output to a side file and then replacing the original, so that a
/// failure mid-write cannot leave a corrupt step list.
pub fn sequence_editor_script_text() -> (r: &'static str)
    ensures
        r@ == ("#!/bin/sh\nset -e\ntodo=\"$1\"\ntmp=\"${todo}.cgen\"\nfirst=1\n\nwhile IFS= read -r line; do\n  if [ \"$first\" -eq 1 ] && printf '%s\\n' \"$line\" | grep -q '^pick '; then\n    printf '%s\\n' \"$line\" | sed 's/^pick /reword /' >> \"$tmp\"\n    first=0\n  else\n    printf '%s\\n' \"$line\" >> \"$tmp\"\n  fi\ndone < \"$todo\"\n\nmv \"$tmp\" \"$todo\"\n")@,
{
    "#!/bin/sh\nset -e\ntodo=\"$1\"\ntmp=\"${todo}.cgen\"\nfirst=1\n\nwhile IFS= read -r line; do\n  if [ \"$first\" -eq 1 ] && printf '%s\\n' \"$line\" | grep -q '^pick '; then\n    printf '%s\\n' \"$line\" | sed 's/^pick /reword /' >> \"$tmp\"\n    first=0\n  else\n    printf '%s\\n' \"$line\" >> \"$tmp\"\n  fi\ndone < \"$todo\"\n\nmv \"$tmp\" \"$todo\"\n"
}

/// Body of the message-editor helper script. It ignores the placeholder
/// message it is invoked with and writes the replacement message, taken
/// from the out-of-band environment channel, into the message file it is
/// handed; message content is never interpolated into script text.
pub fn message_editor_script_text() -> (r: &'static str)
    ensures
        r@ == ("#!/bin/sh\nset -e\nmsg_file=\"$1\"\nprintf '%s\\n' \"$CGEN_NEW_MESSAGE\" > \"$msg_file\"\n")@,
{
    "#!/bin/sh\nset -e\nmsg_file=\"$1\"\nprintf '%s\\n' \"$CGEN_NEW_MESSAGE\" > \"$msg_file\"\n"
}

/// Name of the environment variable through which the replacement message
/// is delivered to the message-editor helper.
pub fn message_env_var() -> (r: &'static str)
    ensures
        r@ == ("CGEN_NEW_MESSAGE")@,
{
    "CGEN_NEW_MESSAGE"
}

} // verus!
