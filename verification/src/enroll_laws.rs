//! What an enrollment comes to as a whole.
use vstd::prelude::*;

use crate::enroll::{
    accepted_line, enroll, gained, moving_on_line, reason_text, rejected_line, retrying_line,
    Captured, Enrollment, EnrollmentView, RecordView, SessionRecord,
};

verus! {

/// Everything that a stretch of enrollment yields.
pub struct Journal<F> {
    pub features: Seq<F>,
    pub records: Seq<RecordView>,
    pub lines: Seq<Seq<char>>,
}

impl<F> Journal<F> {
    pub open spec fn empty() -> Journal<F> {
        Journal { features: Seq::empty(), records: Seq::empty(), lines: Seq::empty() }
    }

    /// This journal, followed by another.
    pub open spec fn followed_by(self, next: Journal<F>) -> Journal<F> {
        Journal {
            features: self.features + next.features,
            records: self.records + next.records,
            lines: self.lines + next.lines,
        }
    }
}

/// What the attempts at one anchor yield, from attempt `attempt` on: they end with the first that
/// is accepted, or when their number is used up. `outcome` says what comes of each capture.
pub open spec fn attempts_at<F>(
    labels: Seq<Seq<char>>,
    attempts: nat,
    anchor: nat,
    attempt: nat,
    outcome: spec_fn(nat, nat) -> Captured<F>,
) -> Journal<F>
    decreases attempts + 1 - attempt,
{
    if attempt > attempts {
        Journal {
            features: Seq::empty(),
            records: Seq::empty(),
            lines: seq![moving_on_line(labels[anchor as int])],
        }
    } else {
        let c = outcome(anchor, attempt);
        if c.quality.accepted {
            Journal {
                features: gained(c),
                records: seq![RecordView::Accepted { anchor }],
                lines: seq![accepted_line(c.quality)],
            }
        } else {
            Journal {
                features: Seq::empty(),
                records: seq![RecordView::Rejected { anchor, reason: reason_text(c) }],
                lines: if attempt < attempts {
                    seq![rejected_line(reason_text(c)), retrying_line(attempt + 1, attempts)]
                } else {
                    seq![rejected_line(reason_text(c))]
                },
            }.followed_by(attempts_at(labels, attempts, anchor, attempt + 1, outcome))
        }
    }
}

/// What the anchors yield, one after another, from `anchor` on.
pub open spec fn anchors_from<F>(
    labels: Seq<Seq<char>>,
    attempts: nat,
    anchor: nat,
    outcome: spec_fn(nat, nat) -> Captured<F>,
) -> Journal<F>
    decreases labels.len() - anchor,
{
    if anchor >= labels.len() {
        Journal::empty()
    } else {
        attempts_at(labels, attempts, anchor, 1, outcome).followed_by(
            anchors_from(labels, attempts, anchor + 1, outcome),
        )
    }
}

impl<F> EnrollmentView<F> {
    /// The captures that can still be asked for.
    pub open spec fn captures_left(self) -> int {
        if self.is_pending() {
            (self.labels.len() - self.anchor) * self.attempts - (self.attempt - 1)
        } else {
            0
        }
    }

    /// What an enrollment yields when each capture that it asks for is made and settled, until it
    /// asks for none.
    pub open spec fn driven(self, outcome: spec_fn(nat, nat) -> Captured<F>) -> Journal<F>
        decreases self.labels.len() - self.anchor, self.attempts - self.attempt,
        when self.wf()
    {
        if self.is_pending() {
            let c = outcome(self.anchor, self.attempt);
            Journal {
                features: if c.quality.accepted {
                    gained(c)
                } else {
                    Seq::empty()
                },
                records: seq![self.record(c)],
                lines: self.lines(c),
            }.followed_by(self.settled(c).driven(outcome))
        } else {
            Journal::empty()
        }
    }
}

impl<F> EnrollmentView<F> {
    /// The enrollment once it asks for no more captures.
    pub open spec fn ended(self, outcome: spec_fn(nat, nat) -> Captured<F>) -> EnrollmentView<F>
        decreases self.labels.len() - self.anchor, self.attempts - self.attempt,
        when self.wf()
    {
        if self.is_pending() {
            self.settled(outcome(self.anchor, self.attempt)).ended(outcome)
        } else {
            self
        }
    }
}

/// An enrollment that is driven to its end asks for nothing more, and holds what it held before
/// and all that it learned on the way.
pub proof fn law_learned_features_are_kept<F>(
    e: EnrollmentView<F>,
    outcome: spec_fn(nat, nat) -> Captured<F>,
)
    requires
        e.wf(),
    ensures
        e.ended(outcome).wf(),
        !e.ended(outcome).is_pending(),
        e.ended(outcome).features == e.features + e.driven(outcome).features,
    decreases e.labels.len() - e.anchor, e.attempts - e.attempt,
{
    if e.is_pending() {
        law_learned_features_are_kept(e.settled(outcome(e.anchor, e.attempt)), outcome);
    }
    assert(e.ended(outcome).features =~= e.features + e.driven(outcome).features);
}

/// Settling a capture keeps an enrollment well-formed and leaves fewer captures to make.
pub proof fn law_captures_run_out<F>(e: EnrollmentView<F>, c: Captured<F>)
    requires
        e.wf(),
        e.is_pending(),
    ensures
        e.settled(c).wf(),
        0 <= e.settled(c).captures_left() < e.captures_left() <= e.labels.len() * e.attempts,
{
    let rest = e.labels.len() - e.anchor;
    let n = e.attempts as int;
    assert(rest * n == (rest - 1) * n + n) by (nonlinear_arith);
    assert((rest - 1) * n >= 0) by (nonlinear_arith)
        requires
            rest >= 1,
            n >= 0,
    ;
    assert(rest * n <= e.labels.len() * n) by (nonlinear_arith)
        requires
            rest <= e.labels.len(),
            n >= 0,
    ;
    if e.settled(c).anchor == e.anchor + 1 {
        assert(e.labels.len() - e.settled(c).anchor == rest - 1);
    }
}

/// A whole enrollment makes no more captures than there are anchors times attempts: each capture is
/// on record once, and no record before the end says that the session is complete.
pub proof fn law_captures_are_bounded<F>(
    e: EnrollmentView<F>,
    outcome: spec_fn(nat, nat) -> Captured<F>,
)
    requires
        e.wf(),
    ensures
        e.driven(outcome).records.len() <= e.captures_left(),
        e.captures_left() <= e.labels.len() * e.attempts,
        forall|i: int|
            0 <= i < e.driven(outcome).records.len() ==> (#[trigger] e.driven(outcome).records[i])
                !is Completed,
    decreases e.labels.len() - e.anchor, e.attempts - e.attempt,
{
    if e.is_pending() {
        let c = outcome(e.anchor, e.attempt);
        law_captures_run_out(e, c);
        law_captures_are_bounded(e.settled(c), outcome);
        let rest = e.settled(c).driven(outcome).records;
        assert(e.driven(outcome).records =~= seq![e.record(c)] + rest);
        assert forall|i: int| 0 <= i < e.driven(outcome).records.len() implies (
        #[trigger] e.driven(outcome).records[i]) !is Completed by {
            if i > 0 {
                assert(e.driven(outcome).records[i] == rest[i - 1]);
            }
        }
    } else {
        assert(e.labels.len() * e.attempts >= 0) by (nonlinear_arith);
    }
}

/// An enrollment that is driven to its end does what trying each anchor in turn does: what it
/// learns, puts on record and prints is that of the anchors in their order, each tried until it
/// is accepted or its attempts are used up.
pub proof fn law_driving_is_trying_each_anchor<F>(
    labels: Seq<Seq<char>>,
    attempts: nat,
    outcome: spec_fn(nat, nat) -> Captured<F>,
)
    requires
        0 < attempts <= u32::MAX,
    ensures
        (EnrollmentView { labels, attempts, anchor: 0, attempt: 1, features: Seq::<F>::empty() })
            .driven(outcome) == anchors_from(labels, attempts, 0, outcome),
{
    let e = EnrollmentView { labels, attempts, anchor: 0, attempt: 1, features: Seq::<F>::empty() };
    lemma_driven(e, outcome);
}

proof fn lemma_driven<F>(e: EnrollmentView<F>, outcome: spec_fn(nat, nat) -> Captured<F>)
    requires
        e.wf(),
        e.attempts > 0,
    ensures
        e.is_pending() ==> e.driven(outcome) == attempts_at(
            e.labels,
            e.attempts,
            e.anchor,
            e.attempt,
            outcome,
        ).followed_by(anchors_from(e.labels, e.attempts, e.anchor + 1, outcome)),
        !e.is_pending() ==> e.driven(outcome) == Journal::<F>::empty(),
    decreases e.labels.len() - e.anchor, e.attempts - e.attempt,
{
    if e.is_pending() {
        let c = outcome(e.anchor, e.attempt);
        let next = e.settled(c);
        lemma_driven(next, outcome);
        reveal_with_fuel(attempts_at, 2);
        let whole = attempts_at(e.labels, e.attempts, e.anchor, e.attempt, outcome).followed_by(
            anchors_from(e.labels, e.attempts, e.anchor + 1, outcome),
        );
        let driven = e.driven(outcome);
        assert(driven.features =~= whole.features);
        assert(driven.records =~= whole.records);
        assert(driven.lines =~= whole.lines);
    }
}

/// Without any attempt nothing is learned or recorded, and each anchor is passed over with one
/// line.
pub proof fn law_no_attempts_pass_over_every_anchor<F>(
    labels: Seq<Seq<char>>,
    outcome: spec_fn(nat, nat) -> Captured<F>,
)
    ensures
        anchors_from(labels, 0, 0, outcome).features == Seq::<F>::empty(),
        anchors_from(labels, 0, 0, outcome).records == Seq::<RecordView>::empty(),
        anchors_from(labels, 0, 0, outcome).lines == labels.map_values(
            |label: Seq<char>| moving_on_line(label),
        ),
{
    lemma_passed_over(labels, 0, outcome);
    assert(labels.skip(0) =~= labels);
}

proof fn lemma_passed_over<F>(
    labels: Seq<Seq<char>>,
    anchor: nat,
    outcome: spec_fn(nat, nat) -> Captured<F>,
)
    requires
        anchor <= labels.len(),
    ensures
        anchors_from(labels, 0, anchor, outcome).features == Seq::<F>::empty(),
        anchors_from(labels, 0, anchor, outcome).records == Seq::<RecordView>::empty(),
        anchors_from(labels, 0, anchor, outcome).lines == labels.skip(anchor as int).map_values(
            |label: Seq<char>| moving_on_line(label),
        ),
    decreases labels.len() - anchor,
{
    if anchor < labels.len() {
        lemma_passed_over(labels, anchor + 1, outcome);
        let j = anchors_from(labels, 0, anchor, outcome);
        assert(j.features =~= Seq::<F>::empty());
        assert(j.records =~= Seq::<RecordView>::empty());
        assert(j.lines =~= labels.skip(anchor as int).map_values(
            |label: Seq<char>| moving_on_line(label),
        ));
    } else {
        assert(anchors_from(labels, 0, anchor, outcome).lines =~= labels.skip(
            anchor as int,
        ).map_values(|label: Seq<char>| moving_on_line(label)));
    }
}

/// `attempt` is the first of the attempts at `anchor` that is accepted.
pub open spec fn is_first_accepted<F>(
    attempts: nat,
    anchor: nat,
    attempt: nat,
    outcome: spec_fn(nat, nat) -> Captured<F>,
) -> bool {
    &&& 1 <= attempt <= attempts
    &&& outcome(anchor, attempt).quality.accepted
    &&& forall|earlier: nat|
        1 <= earlier < attempt ==> !(#[trigger] outcome(anchor, earlier)).quality.accepted
}

/// An anchor is done with the first capture of it that is accepted: every earlier one is on record
/// as rejected, this one as accepted, and what it showed is kept.
pub proof fn law_first_accepted_capture_counts<F>(
    labels: Seq<Seq<char>>,
    attempts: nat,
    anchor: nat,
    first: nat,
    outcome: spec_fn(nat, nat) -> Captured<F>,
)
    requires
        is_first_accepted(attempts, anchor, first, outcome),
    ensures
        attempts_at(labels, attempts, anchor, 1, outcome).features == gained(
            outcome(anchor, first),
        ),
        attempts_at(labels, attempts, anchor, 1, outcome).records == Seq::new(
            first,
            |i: int|
                if i + 1 == first {
                    RecordView::Accepted { anchor }
                } else {
                    RecordView::Rejected {
                        anchor,
                        reason: reason_text(outcome(anchor, (i + 1) as nat)),
                    }
                },
        ),
{
    lemma_first_accepted(labels, attempts, anchor, 1, first, outcome);
    assert(Seq::new(
        first,
        |i: int|
            if i + 1 == first {
                RecordView::Accepted { anchor }
            } else {
                RecordView::Rejected {
                    anchor,
                    reason: reason_text(outcome(anchor, (i + 1) as nat)),
                }
            },
    ) =~= attempts_at(labels, attempts, anchor, 1, outcome).records);
}

proof fn lemma_first_accepted<F>(
    labels: Seq<Seq<char>>,
    attempts: nat,
    anchor: nat,
    attempt: nat,
    first: nat,
    outcome: spec_fn(nat, nat) -> Captured<F>,
)
    requires
        is_first_accepted(attempts, anchor, first, outcome),
        1 <= attempt <= first,
    ensures
        attempts_at(labels, attempts, anchor, attempt, outcome).features == gained(
            outcome(anchor, first),
        ),
        attempts_at(labels, attempts, anchor, attempt, outcome).records == Seq::new(
            (first + 1 - attempt) as nat,
            |i: int|
                if i + attempt == first {
                    RecordView::Accepted { anchor }
                } else {
                    RecordView::Rejected {
                        anchor,
                        reason: reason_text(outcome(anchor, (i + attempt) as nat)),
                    }
                },
        ),
    decreases first - attempt,
{
    let j = attempts_at(labels, attempts, anchor, attempt, outcome);
    if attempt < first {
        assert(!outcome(anchor, attempt).quality.accepted);
        lemma_first_accepted(labels, attempts, anchor, attempt + 1, first, outcome);
    }
    assert(j.features =~= gained(outcome(anchor, first)));
    assert(j.records =~= Seq::new(
        (first + 1 - attempt) as nat,
        |i: int|
            if i + attempt == first {
                RecordView::Accepted { anchor }
            } else {
                RecordView::Rejected {
                    anchor,
                    reason: reason_text(outcome(anchor, (i + attempt) as nat)),
                }
            },
    ));
}

/// An anchor that is never accepted leaves nothing but its rejections, one for each attempt.
pub proof fn law_unaccepted_anchor_leaves_rejections<F>(
    labels: Seq<Seq<char>>,
    attempts: nat,
    anchor: nat,
    outcome: spec_fn(nat, nat) -> Captured<F>,
)
    requires
        forall|attempt: nat|
            1 <= attempt <= attempts ==> !(#[trigger] outcome(anchor, attempt)).quality.accepted,
    ensures
        attempts_at(labels, attempts, anchor, 1, outcome).features == Seq::<F>::empty(),
        attempts_at(labels, attempts, anchor, 1, outcome).records == Seq::new(
            attempts,
            |i: int|
                RecordView::Rejected {
                    anchor,
                    reason: reason_text(outcome(anchor, (i + 1) as nat)),
                },
        ),
{
    lemma_unaccepted(labels, attempts, anchor, 1, outcome);
    assert(Seq::new(
        attempts,
        |i: int|
            RecordView::Rejected {
                anchor,
                reason: reason_text(outcome(anchor, (i + 1) as nat)),
            },
    ) =~= attempts_at(labels, attempts, anchor, 1, outcome).records);
}

proof fn lemma_unaccepted<F>(
    labels: Seq<Seq<char>>,
    attempts: nat,
    anchor: nat,
    attempt: nat,
    outcome: spec_fn(nat, nat) -> Captured<F>,
)
    requires
        1 <= attempt <= attempts + 1,
        forall|a: nat| 1 <= a <= attempts ==> !(#[trigger] outcome(anchor, a)).quality.accepted,
    ensures
        attempts_at(labels, attempts, anchor, attempt, outcome).features == Seq::<F>::empty(),
        attempts_at(labels, attempts, anchor, attempt, outcome).records == Seq::new(
            (attempts + 1 - attempt) as nat,
            |i: int|
                RecordView::Rejected {
                    anchor,
                    reason: reason_text(outcome(anchor, (i + attempt) as nat)),
                },
        ),
    decreases attempts + 1 - attempt,
{
    if attempt <= attempts {
        assert(!outcome(anchor, attempt).quality.accepted);
        lemma_unaccepted(labels, attempts, anchor, attempt + 1, outcome);
    }
    let j = attempts_at(labels, attempts, anchor, attempt, outcome);
    assert(j.features =~= Seq::<F>::empty());
    assert(j.records =~= Seq::new(
        (attempts + 1 - attempt) as nat,
        |i: int|
            RecordView::Rejected {
                anchor,
                reason: reason_text(outcome(anchor, (i + attempt) as nat)),
            },
    ));
}

/// At most one feature is kept of an anchor.
pub proof fn law_one_feature_per_anchor<F>(
    labels: Seq<Seq<char>>,
    attempts: nat,
    anchor: nat,
    outcome: spec_fn(nat, nat) -> Captured<F>,
)
    requires
        anchor <= labels.len(),
    ensures
        anchors_from(labels, attempts, anchor, outcome).features.len() <= labels.len() - anchor,
    decreases labels.len() - anchor,
{
    if anchor < labels.len() {
        lemma_at_most_one_feature(labels, attempts, anchor, 1, outcome);
        law_one_feature_per_anchor(labels, attempts, anchor + 1, outcome);
    }
}

proof fn lemma_at_most_one_feature<F>(
    labels: Seq<Seq<char>>,
    attempts: nat,
    anchor: nat,
    attempt: nat,
    outcome: spec_fn(nat, nat) -> Captured<F>,
)
    ensures
        attempts_at(labels, attempts, anchor, attempt, outcome).features.len() <= 1,
    decreases attempts + 1 - attempt,
{
    if attempt <= attempts {
        lemma_at_most_one_feature(labels, attempts, anchor, attempt + 1, outcome);
    }
}

/// A capture comes with a feature exactly if it was accepted.
pub open spec fn is_sound<F>(c: Captured<F>) -> bool {
    c.feature is Some <==> c.quality.accepted
}

/// How many log entries are acceptances.
pub open spec fn acceptances(records: Seq<RecordView>) -> nat {
    records.filter(|r: RecordView| r is Accepted).len()
}

/// Every accepted anchor has its feature: where captures come with a feature exactly if they are
/// accepted, there are as many features as acceptances on record.
pub proof fn law_as_many_features_as_acceptances<F>(
    labels: Seq<Seq<char>>,
    attempts: nat,
    anchor: nat,
    outcome: spec_fn(nat, nat) -> Captured<F>,
)
    requires
        forall|anchor: nat, attempt: nat| is_sound(#[trigger] outcome(anchor, attempt)),
    ensures
        anchors_from(labels, attempts, anchor, outcome).features.len() == acceptances(
            anchors_from(labels, attempts, anchor, outcome).records,
        ),
    decreases labels.len() - anchor,
{
    let accepted = |r: RecordView| r is Accepted;
    if anchor < labels.len() {
        lemma_features_at(labels, attempts, anchor, 1, outcome);
        law_as_many_features_as_acceptances(labels, attempts, anchor + 1, outcome);
        Seq::filter_distributes_over_add(
            attempts_at(labels, attempts, anchor, 1, outcome).records,
            anchors_from(labels, attempts, anchor + 1, outcome).records,
            accepted,
        );
    } else {
        reveal(Seq::filter);
    }
}

proof fn lemma_features_at<F>(
    labels: Seq<Seq<char>>,
    attempts: nat,
    anchor: nat,
    attempt: nat,
    outcome: spec_fn(nat, nat) -> Captured<F>,
)
    requires
        forall|anchor: nat, attempt: nat| is_sound(#[trigger] outcome(anchor, attempt)),
    ensures
        attempts_at(labels, attempts, anchor, attempt, outcome).features.len() == acceptances(
            attempts_at(labels, attempts, anchor, attempt, outcome).records,
        ),
    decreases attempts + 1 - attempt,
{
    let accepted = |r: RecordView| r is Accepted;
    reveal_with_fuel(Seq::filter, 2);
    if attempt <= attempts {
        let c = outcome(anchor, attempt);
        assert(is_sound(c));
        if c.quality.accepted {
            let records = seq![RecordView::Accepted { anchor }];
            assert(records.drop_last() =~= Seq::<RecordView>::empty());
            assert(records.filter(accepted) =~= records);
        } else {
            let rejected = seq![RecordView::Rejected { anchor, reason: reason_text(c) }];
            assert(rejected.drop_last() =~= Seq::<RecordView>::empty());
            assert(rejected.filter(accepted) =~= Seq::<RecordView>::empty());
            lemma_features_at(labels, attempts, anchor, attempt + 1, outcome);
            Seq::filter_distributes_over_add(
                rejected,
                attempts_at(labels, attempts, anchor, attempt + 1, outcome).records,
                accepted,
            );
        }
    }
}

/// An enrollment leaves something to train on exactly if some attempt at some anchor is accepted.
pub proof fn law_trainable_if_some_capture_is_accepted<F>(
    labels: Seq<Seq<char>>,
    attempts: nat,
    outcome: spec_fn(nat, nat) -> Captured<F>,
)
    requires
        forall|anchor: nat, attempt: nat| is_sound(#[trigger] outcome(anchor, attempt)),
    ensures
        anchors_from(labels, attempts, 0, outcome).features.len() > 0 <==> exists|
            anchor: nat,
            attempt: nat,
        |
            anchor < labels.len() && 1 <= attempt <= attempts && (#[trigger] outcome(
                anchor,
                attempt,
            )).quality.accepted,
{
    lemma_trainable(labels, attempts, 0, outcome);
}

proof fn lemma_trainable<F>(
    labels: Seq<Seq<char>>,
    attempts: nat,
    from: nat,
    outcome: spec_fn(nat, nat) -> Captured<F>,
)
    requires
        forall|anchor: nat, attempt: nat| is_sound(#[trigger] outcome(anchor, attempt)),
    ensures
        anchors_from(labels, attempts, from, outcome).features.len() > 0 <==> exists|
            anchor: nat,
            attempt: nat,
        |
            from <= anchor < labels.len() && 1 <= attempt <= attempts && (#[trigger] outcome(
                anchor,
                attempt,
            )).quality.accepted,
    decreases labels.len() - from,
{
    if from < labels.len() {
        lemma_trainable(labels, attempts, from + 1, outcome);
        lemma_trainable_at(labels, attempts, from, 1, outcome);
    }
}

proof fn lemma_trainable_at<F>(
    labels: Seq<Seq<char>>,
    attempts: nat,
    anchor: nat,
    from: nat,
    outcome: spec_fn(nat, nat) -> Captured<F>,
)
    requires
        forall|anchor: nat, attempt: nat| is_sound(#[trigger] outcome(anchor, attempt)),
    ensures
        attempts_at(labels, attempts, anchor, from, outcome).features.len() > 0 <==> exists|
            attempt: nat,
        |
            from <= attempt <= attempts && (#[trigger] outcome(anchor, attempt)).quality.accepted,
    decreases attempts + 1 - from,
{
    if from <= attempts {
        assert(is_sound(outcome(anchor, from)));
        lemma_trainable_at(labels, attempts, anchor, from + 1, outcome);
    }
}

/// An enrollment asks for the first attempt at its first anchor, with nothing learned and nothing
/// to print. Without any attempt it asks for nothing and passes over each anchor with a line.
pub proof fn law_enrollment_begins_at_the_first_anchor<F>(
    labels: Vec<String>,
    attempts: u32,
    r: (Enrollment<F>, Vec<String>),
    request: Option<(usize, u32)>,
)
    requires
        call_ensures(enroll::<F>, (labels, attempts), r),
        call_ensures(Enrollment::<F>::request, (&r.0,), request),
    ensures
        r.0@.wf(),
        r.0@.features.len() == 0,
        r.0@.attempts == attempts,
        r.0@.labels.len() == labels@.len(),
        forall|i: int| 0 <= i < labels@.len() ==> #[trigger] r.0@.labels[i] == labels@[i]@,
        attempts > 0 && labels@.len() > 0 ==> request == Some((0usize, 1u32)) && r.0@.anchor == 0
            && r.0@.attempt == 1,
        attempts == 0 || labels@.len() == 0 ==> request is None,
        attempts > 0 ==> r.1@.len() == 0,
        attempts == 0 ==> r.1@.len() == labels@.len(),
        attempts == 0 ==> forall|i: int|
            0 <= i < labels@.len() ==> (#[trigger] r.1@[i])@ == "[enroll]   moving on without '"@
                + labels@[i]@ + "'"@,
{
    let all = crate::text::texts(r.1@);
    assert(all.len() == r.1@.len());
    assert forall|i: int| attempts == 0 && 0 <= i < labels@.len() implies (#[trigger] r.1@[i])@
        == "[enroll]   moving on without '"@ + labels@[i]@ + "'"@ by {
        assert(all[i] == r.1@[i]@);
    }
}

/// An enrollment asks for a capture exactly while an anchor is left, and for the very anchor and
/// attempt that it stands at.
pub proof fn law_request_is_where_the_enrollment_stands<F>(
    e: Enrollment<F>,
    r: Option<(usize, u32)>,
)
    requires
        call_ensures(Enrollment::<F>::request, (&e,), r),
    ensures
        r is Some <==> e@.anchor < e@.labels.len(),
        r matches Some((anchor, attempt)) ==> anchor == e@.anchor && attempt == e@.attempt,
{
}

/// An accepted capture ends its anchor: the next anchor comes with its first attempt, the feature
/// is kept after those before it, and the capture is on record as accepted and told with its
/// quality.
pub proof fn law_accepted_capture_ends_its_anchor<F>(e: EnrollmentView<F>, c: Captured<F>)
    requires
        c.quality.accepted,
    ensures
        e.settled(c).anchor == e.anchor + 1,
        e.settled(c).attempt == 1,
        c.feature matches Some(f) ==> e.settled(c).features == e.features.push(f),
        c.feature is None ==> e.settled(c).features == e.features,
        e.settled(c).labels == e.labels,
        e.settled(c).attempts == e.attempts,
        e.record(c) == (RecordView::Accepted { anchor: e.anchor }),
        e.lines(c).len() == 1,
        e.lines(c)[0] == "[enroll]   ✓ accepted (presence_z="@ + c.quality.presence_z@ + " motion="@
            + c.quality.motion_percent@ + "% frames="@ + crate::text::decimal(
            c.quality.frames as nat,
        ) + ")"@,
{
    if let Some(f) = c.feature {
        assert(e.settled(c).features =~= e.features.push(f));
    } else {
        assert(e.settled(c).features =~= e.features);
    }
}

/// A rejected capture teaches nothing and is on record with its reason, or with none where none
/// was given. While attempts are left the same anchor is tried again, which is told with the number
/// of the attempt; after the last the next anchor comes with its first attempt, and the one that
/// was given up is named.
pub proof fn law_rejected_capture_is_tried_again<F>(
    e: EnrollmentView<F>,
    c: Captured<F>,
    reason: Seq<char>,
)
    requires
        !c.quality.accepted,
        c.reason matches Some(why) ==> reason == why@,
        c.reason is None ==> reason.len() == 0,
    ensures
        e.settled(c).features == e.features,
        e.settled(c).labels == e.labels,
        e.settled(c).attempts == e.attempts,
        e.record(c) == (RecordView::Rejected { anchor: e.anchor, reason }),
        e.lines(c).len() == 2,
        e.lines(c)[0] == "[enroll]   ✗ rejected: "@ + reason,
        e.attempt < e.attempts ==> {
            &&& e.settled(c).anchor == e.anchor
            &&& e.settled(c).attempt == e.attempt + 1
            &&& e.lines(c)[1] == "[enroll]   retrying ("@ + crate::text::decimal(e.attempt + 1)
                + "/"@ + crate::text::decimal(e.attempts) + ")…"@
        },
        e.attempt >= e.attempts ==> {
            &&& e.settled(c).anchor == e.anchor + 1
            &&& e.settled(c).attempt == 1
            &&& e.lines(c)[1] == "[enroll]   moving on without '"@ + e.labels[e.anchor as int]
                + "'"@
        },
{
    assert(reason =~= reason_text(c));
}

/// A log entry says of which anchor it is, what became of it, and why.
pub proof fn law_records_say_what_they_hold(record: SessionRecord)
    ensures
        record matches SessionRecord::Accepted { anchor } ==> record@ == (RecordView::Accepted {
            anchor: anchor as nat,
        }),
        record matches SessionRecord::Rejected { anchor, reason } ==> record@ == (
        RecordView::Rejected { anchor: anchor as nat, reason: reason@ }),
        record is Completed ==> record@ == RecordView::Completed,
{
}

/// Ending an enrollment hands over every feature, in order, and closes the log exactly if the
/// session is complete.
pub proof fn law_end_hands_everything_over<F>(
    e: Enrollment<F>,
    complete: bool,
    r: (Vec<F>, Option<SessionRecord>),
)
    requires
        call_ensures(Enrollment::<F>::close, (e, complete), r),
    ensures
        r.0@ == e@.features,
        complete ==> r.1 == Some(SessionRecord::Completed),
        !complete ==> r.1 is None,
{
}

} // verus!
