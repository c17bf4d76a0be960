//! The hand-off of rebuilt pipelines to the render loop, and what the render
//! loop holds.

use vstd::prelude::*;

verus! {

/// Where a reload stands.
#[derive(Clone, Copy, Debug, PartialEq, Eq, Structural)]
pub enum Phase {
    /// Nothing is being built and nothing waits to be adopted.
    Idle,
    /// At least one build is under way and none has finished unadopted.
    Compiling,
    /// A freshly built pipeline waits for the render loop.
    Ready,
}

/// What a hand-off is, seen from outside.
pub struct ReloadView<P> {
    /// The newest pipeline built and not yet adopted.
    pub latest: Option<P>,
    /// The number of builds requested and not yet finished.
    pub compiling: nat,
}

impl<P> ReloadView<P> {
    pub open spec fn phase(self) -> Phase {
        if self.latest.is_some() {
            Phase::Ready
        } else if self.compiling > 0 {
            Phase::Compiling
        } else {
            Phase::Idle
        }
    }

    /// The hand-off after the render loop has polled it: nothing waits.
    pub open spec fn polled(self) -> ReloadView<P> {
        ReloadView { latest: None, ..self }
    }

    /// The hand-off after a build has ended, with a pipeline or without one.
    /// A new pipeline takes the place of whatever waited; a failure leaves it.
    pub open spec fn finished(self, built: Option<P>) -> ReloadView<P> {
        ReloadView {
            latest: if built.is_some() {
                built
            } else {
                self.latest
            },
            compiling: if self.compiling > 0 {
                (self.compiling - 1) as nat
            } else {
                0
            },
        }
    }
}

/// The hand-off of rebuilt pipelines from the compiling side to the render
/// loop: one place, in which the newest build replaces any older one that was
/// never picked up. Neither side ever waits for the other.
#[derive(Debug)]
pub struct Reload<P> {
    latest: Option<P>,
    compiling: usize,
}

impl<P> View for Reload<P> {
    type V = ReloadView<P>;

    closed spec fn view(&self) -> ReloadView<P> {
        ReloadView { latest: self.latest, compiling: self.compiling as nat }
    }
}

impl<P> Reload<P> {
    /// An idle hand-off.
    pub fn new() -> (r: Reload<P>)
        ensures
            r@ == (ReloadView::<P> { latest: None, compiling: 0 }),
    {
        Reload { latest: None, compiling: 0 }
    }

    pub fn phase(&self) -> (r: Phase)
        ensures
            r == self@.phase(),
    {
        if self.latest.is_some() {
            Phase::Ready
        } else if self.compiling > 0 {
            Phase::Compiling
        } else {
            Phase::Idle
        }
    }

    /// Notes that the shader source has changed. Returns whether a build is
    /// to be started now; it is, unless as many builds are under way as can
    /// be counted. A build that is already under way is never cancelled.
    pub fn request(&mut self) -> (r: bool)
        ensures
            r == (old(self)@.compiling < usize::MAX),
            final(self)@.latest == old(self)@.latest,
            final(self)@.compiling == old(self)@.compiling + (if r {
                1nat
            } else {
                0nat
            }),
    {
        if self.compiling < usize::MAX {
            self.compiling = self.compiling + 1;
            true
        } else {
            false
        }
    }

    /// Notes that a build has ended: with a pipeline, which from now on is
    /// the one that waits, or without one, which changes nothing for the
    /// render loop.
    pub fn finish(&mut self, built: Option<P>)
        ensures
            final(self)@ == old(self)@.finished(built),
    {
        if self.compiling > 0 {
            self.compiling = self.compiling - 1;
        }
        if built.is_some() {
            self.latest = built;
        }
    }

    /// Takes the pipeline that waits, if there is one.
    pub fn poll(&mut self) -> (r: Option<P>)
        ensures
            r == old(self)@.latest,
            final(self)@ == old(self)@.polled(),
    {
        self.latest.take()
    }
}

/// Of two builds that end one after the other with nobody polling between
/// them, only the later one is ever handed to the render loop.
pub proof fn lemma_latest_build_wins<P>(reload: ReloadView<P>, earlier: Option<P>, later: P)
    ensures
        reload.finished(earlier).finished(Some(later)).latest == Some(later),
{
}

/// A build that fails takes nothing away from the render loop: what waited
/// before still waits.
pub proof fn lemma_failed_build_changes_nothing<P>(reload: ReloadView<P>)
    ensures
        reload.finished(None).latest == reload.latest,
{
}

/// A rebuilt pipeline is adopted once: the poll that brings it leaves nothing
/// behind, so the next frame keeps the stage as it is, cards included, until
/// another build ends.
pub proof fn lemma_adopted_once<P, C>(stage: StageView<P, C>, reload: ReloadView<P>)
    ensures
        reload.polled().latest.is_none(),
        stage.adopted(reload.latest).adopted(reload.polled().latest) == stage.adopted(
            reload.latest,
        ),
{
}

/// Adopting a rebuilt pipeline empties the place of every viewer, and keeps
/// the number of places.
pub proof fn lemma_adoption_empties_every_place<P, C>(stage: StageView<P, C>, pipeline: P)
    ensures
        stage.adopted(Some(pipeline)).pipeline == pipeline,
        stage.adopted(Some(pipeline)).cards.len() == stage.cards.len(),
        forall|viewer: int|
            0 <= viewer < stage.cards.len() ==> (#[trigger] stage.adopted(
                Some(pipeline),
            ).cards[viewer]).is_none(),
{
}

/// What the render loop holds, seen from outside.
pub struct StageView<P, C> {
    /// The pipeline that frames are drawn with.
    pub pipeline: P,
    /// The cards built against that pipeline, one place per viewer; an empty
    /// place means that the viewer's card has to be uploaded again.
    pub cards: Seq<Option<C>>,
}

impl<P, C> StageView<P, C> {
    /// The stage after a poll that brought `latest`: a new pipeline becomes
    /// the active one and empties every place, since no card outlives the
    /// pipeline it was built against; no pipeline leaves the stage as it is.
    pub open spec fn adopted(self, latest: Option<P>) -> StageView<P, C> {
        match latest {
            Some(pipeline) => StageView {
                pipeline,
                cards: Seq::new(self.cards.len(), |i: int| None::<C>),
            },
            None => self,
        }
    }
}

/// The one active pipeline and the cards built against it. Only the render
/// loop touches it.
#[derive(Debug)]
pub struct Stage<P, C> {
    pipeline: P,
    cards: Vec<Option<C>>,
}

impl<P, C> View for Stage<P, C> {
    type V = StageView<P, C>;

    closed spec fn view(&self) -> StageView<P, C> {
        StageView { pipeline: self.pipeline, cards: self.cards@ }
    }
}

/// `viewers` empty places.
fn empty_places<C>(viewers: usize) -> (r: Vec<Option<C>>)
    ensures
        r@ == Seq::new(viewers as nat, |i: int| None::<C>),
{
    let mut places: Vec<Option<C>> = Vec::new();
    let mut i: usize = 0;
    while i < viewers
        invariant
            i <= viewers,
            places@ == Seq::new(i as nat, |j: int| None::<C>),
        decreases viewers - i,
    {
        places.push(None);
        i = i + 1;
    }
    places
}

impl<P, C> Stage<P, C> {
    /// A stage that draws with `pipeline` and has an empty place for each of
    /// `viewers` cards.
    pub fn new(pipeline: P, viewers: usize) -> (r: Stage<P, C>)
        ensures
            r@ == (StageView { pipeline, cards: Seq::new(viewers as nat, |i: int| None::<C>) }),
    {
        Stage { pipeline, cards: empty_places(viewers) }
    }

    /// The pipeline that frames are drawn with.
    pub fn pipeline(&self) -> (r: &P)
        ensures
            *r == self@.pipeline,
    {
        &self.pipeline
    }

    /// The number of places.
    pub fn viewers(&self) -> (r: usize)
        ensures
            r == self@.cards.len(),
    {
        self.cards.len()
    }

    /// Starts a frame with what the poll of the hand-off brought. Returns
    /// whether a new pipeline was adopted.
    pub fn adopt(&mut self, latest: Option<P>) -> (r: bool)
        ensures
            r == latest.is_some(),
            final(self)@ == old(self)@.adopted(latest),
    {
        match latest {
            Some(pipeline) => {
                let viewers = self.cards.len();
                self.pipeline = pipeline;
                self.cards = empty_places(viewers);
                true
            },
            None => false,
        }
    }

    /// Starts a frame: polls the hand-off and adopts what it brought. Returns
    /// whether a new pipeline was adopted.
    pub fn refresh(&mut self, reload: &mut Reload<P>) -> (r: bool)
        ensures
            r == old(reload)@.latest.is_some(),
            final(self)@ == old(self)@.adopted(old(reload)@.latest),
            final(reload)@ == old(reload)@.polled(),
    {
        let latest = reload.poll();
        self.adopt(latest)
    }

    /// Takes the card out of a viewer's place, leaving the place empty.
    pub fn take(&mut self, viewer: usize) -> (r: Option<C>)
        requires
            viewer < old(self)@.cards.len(),
        ensures
            r == old(self)@.cards[viewer as int],
            final(self)@ == (StageView {
                cards: old(self)@.cards.update(viewer as int, None),
                ..old(self)@
            }),
    {
        let mut card: Option<C> = None;
        std::mem::swap(&mut card, &mut self.cards[viewer]);
        card
    }

    /// Puts a card into a viewer's place.
    pub fn store(&mut self, viewer: usize, card: C)
        requires
            viewer < old(self)@.cards.len(),
        ensures
            final(self)@ == (StageView {
                cards: old(self)@.cards.update(viewer as int, Some(card)),
                ..old(self)@
            }),
    {
        self.cards[viewer] = Some(card);
    }
}

} // verus!
