use vstd::prelude::*;
use crate::errors::AppError;

verus! {

/// Where a producer stands in its cycle of pick, open and offer.
#[derive(Debug, Clone, Copy, PartialEq, Eq, Structural)]
pub enum ProducerState {
    /// About to pick a catalog entry.
    Ready,
    /// Waiting for the picked file to open.
    Opening,
    /// Waiting for the queue to accept the opened sample.
    Offering,
    /// The receiving end is gone; the producer does nothing more.
    Stopped,
}

/// What happened since the producer's last action.
#[derive(Debug, Clone, Copy, PartialEq, Eq, Structural)]
pub enum ProducerEvent {
    /// The producer was started, or resumed after yielding.
    Resumed,
    /// The picked file could not be opened.
    OpenFailed,
    /// The picked file is open and wrapped as a sample.
    Opened,
    /// The queue accepted the sample.
    Delivered,
    /// The queue refused the sample: its receiving end is closed for good.
    ReceiverClosed,
}

/// What the producer asks its runner to do next.
#[derive(Debug, Clone, PartialEq, Eq)]
pub enum ProducerAction {
    /// Cede control to the scheduler, then report `Resumed`.
    Yield,
    /// Open the file at `path` for streamed reading.
    Open { path: String },
    /// Offer the open sample to the queue, suspending while it is full.
    Offer,
    /// Stop producing.
    Halt,
}

/// Whether the event asks the producer to pick a fresh catalog entry.
pub open spec fn needs_pick(state: ProducerState, event: ProducerEvent) -> bool {
    (state == ProducerState::Ready && event == ProducerEvent::Resumed) || (state
        == ProducerState::Offering && event == ProducerEvent::Delivered)
}

/// The state after `event`, given the entry picked (if one was needed).
///
/// An event that does not fit the state restarts the cycle.
pub open spec fn next_state(
    state: ProducerState,
    event: ProducerEvent,
    picked: Option<Seq<char>>,
) -> ProducerState {
    if state == ProducerState::Stopped {
        ProducerState::Stopped
    } else if needs_pick(state, event) {
        if picked is Some {
            ProducerState::Opening
        } else {
            ProducerState::Ready
        }
    } else if state == ProducerState::Opening && event == ProducerEvent::Opened {
        ProducerState::Offering
    } else if state == ProducerState::Offering && event == ProducerEvent::ReceiverClosed {
        ProducerState::Stopped
    } else {
        ProducerState::Ready
    }
}

/// Whether `a` is the action that follows `event`, given the entry picked.
pub open spec fn is_next_action(
    state: ProducerState,
    event: ProducerEvent,
    picked: Option<Seq<char>>,
    a: ProducerAction,
) -> bool {
    if state == ProducerState::Stopped {
        a is Halt
    } else if needs_pick(state, event) {
        match picked {
            None => a is Yield,
            Some(p) => a matches ProducerAction::Open { path } && path@ == p,
        }
    } else if state == ProducerState::Opening && event == ProducerEvent::Opened {
        a is Offer
    } else if state == ProducerState::Offering && event == ProducerEvent::ReceiverClosed {
        a is Halt
    } else {
        a is Yield
    }
}

/// The text of a picked entry, if any.
pub open spec fn text_of(picked: Option<String>) -> Option<Seq<char>> {
    match picked {
        Some(p) => Some(p@),
        None => None,
    }
}

/// Whether `p` is the text of one of the catalog's entries.
pub open spec fn in_catalog(catalog: Seq<String>, p: Seq<char>) -> bool {
    exists|i: int| 0 <= i < catalog.len() && #[trigger] catalog[i]@ == p
}

/// Relies on rand's `IndexedRandom::choose` with the thread-local generator
/// (`rand::rng`): `None` exactly for an empty slice, otherwise a clone of one
/// of its entries. Which entry comes out is left open.
#[verifier::external_body]
fn choose_entry(catalog: &Vec<String>) -> (r: Option<String>)
    ensures
        catalog@.len() == 0 <==> r is None,
        r matches Some(p) ==> in_catalog(catalog@, p@),
{
    rand::seq::IndexedRandom::choose(catalog.as_slice(), &mut rand::rng()).cloned()
}

/// Decides the producer's next state and action once the entry to pick,
/// if any was needed, is known.
pub fn decide(state: ProducerState, event: ProducerEvent, picked: Option<String>) -> (r: (
    ProducerState,
    ProducerAction,
))
    ensures
        r.0 == next_state(state, event, text_of(picked)),
        is_next_action(state, event, text_of(picked), r.1),
{
    if state == ProducerState::Stopped {
        (ProducerState::Stopped, ProducerAction::Halt)
    } else if (state == ProducerState::Ready && event == ProducerEvent::Resumed) || (state
        == ProducerState::Offering && event == ProducerEvent::Delivered) {
        match picked {
            Some(path) => (ProducerState::Opening, ProducerAction::Open { path }),
            None => (ProducerState::Ready, ProducerAction::Yield),
        }
    } else if state == ProducerState::Opening && event == ProducerEvent::Opened {
        (ProducerState::Offering, ProducerAction::Offer)
    } else if state == ProducerState::Offering && event == ProducerEvent::ReceiverClosed {
        (ProducerState::Stopped, ProducerAction::Halt)
    } else {
        (ProducerState::Ready, ProducerAction::Yield)
    }
}

/// One producer: an immutable catalog and where it stands in its cycle.
pub struct Producer {
    state: ProducerState,
    catalog: Vec<String>,
}

impl Producer {
    /// A producer is only ever opening or offering a file of a non-empty
    /// catalog.
    pub closed spec fn wf(&self) -> bool {
        (self.state == ProducerState::Opening || self.state == ProducerState::Offering)
            ==> self.catalog@.len() > 0
    }

    /// Where the producer stands in its cycle.
    pub closed spec fn state_spec(&self) -> ProducerState {
        self.state
    }

    /// The entries the producer picks from.
    pub closed spec fn catalog_spec(&self) -> Seq<String> {
        self.catalog@
    }

    /// A producer over `catalog`, ready to pick its first entry.
    pub fn new(catalog: Vec<String>) -> (r: Producer)
        ensures
            r.wf(),
            r.state_spec() == ProducerState::Ready,
            r.catalog_spec() == catalog@,
    {
        Producer { state: ProducerState::Ready, catalog }
    }

    /// Where the producer stands in its cycle.
    pub fn state(&self) -> (r: ProducerState)
        ensures
            r == self.state_spec(),
    {
        self.state
    }

    /// The entries the producer picks from.
    pub fn catalog(&self) -> (r: &Vec<String>)
        ensures
            r@ == self.catalog_spec(),
    {
        &self.catalog
    }

    /// Takes in what happened since the last action and returns the next
    /// one, picking an entry at random where the cycle starts anew.
    pub fn step(&mut self, event: ProducerEvent) -> (a: ProducerAction)
        requires
            old(self).wf(),
        ensures
            final(self).wf(),
            stepped(*old(self), event, a, *final(self)),
    {
        let picked = if self.state != ProducerState::Stopped && ((self.state == ProducerState::Ready
            && event == ProducerEvent::Resumed) || (self.state == ProducerState::Offering && event
            == ProducerEvent::Delivered)) {
            choose_entry(&self.catalog)
        } else {
            None
        };
        let (state, action) = decide(self.state, event, picked);
        self.state = state;
        action
    }
}

/// How one step of a producer relates its state before and after to the
/// event it took in and the action it returned.
pub open spec fn stepped(p: Producer, event: ProducerEvent, a: ProducerAction, q: Producer) -> bool {
    &&& q.catalog_spec() == p.catalog_spec()
    &&& p.state_spec() != ProducerState::Stopped && needs_pick(p.state_spec(), event) ==> match a {
        ProducerAction::Open { path } => in_catalog(p.catalog_spec(), path@) && q.state_spec()
            == ProducerState::Opening,
        ProducerAction::Yield => p.catalog_spec().len() == 0 && q.state_spec()
            == ProducerState::Ready,
        _ => false,
    }
    &&& !(p.state_spec() != ProducerState::Stopped && needs_pick(p.state_spec(), event))
        ==> q.state_spec() == next_state(p.state_spec(), event, None) && is_next_action(
        p.state_spec(),
        event,
        None,
        a,
    )
}

/// Over an empty catalog a live producer never opens a file, offers or
/// halts: whatever it is told, it yields control and stays ready to retry.
pub proof fn lemma_empty_catalog_yields(
    p: Producer,
    event: ProducerEvent,
    a: ProducerAction,
    q: Producer,
)
    requires
        p.wf(),
        p.catalog_spec().len() == 0,
        p.state_spec() != ProducerState::Stopped,
        stepped(p, event, a, q),
    ensures
        a is Yield,
        q.state_spec() == ProducerState::Ready,
        q.catalog_spec().len() == 0,
{
}

/// A producer halts only once stopped, or when the queue refuses a sample
/// because its receiving end is closed.
pub proof fn lemma_halts_only_when_closed(
    p: Producer,
    event: ProducerEvent,
    a: ProducerAction,
    q: Producer,
)
    requires
        stepped(p, event, a, q),
        a is Halt,
    ensures
        p.state_spec() == ProducerState::Stopped || (p.state_spec() == ProducerState::Offering
            && event == ProducerEvent::ReceiverClosed),
{
}

/// An opened sample is always offered to the queue, never dropped in
/// favour of another pick.
pub proof fn lemma_opened_sample_is_offered(
    p: Producer,
    event: ProducerEvent,
    a: ProducerAction,
    q: Producer,
)
    requires
        stepped(p, event, a, q),
    ensures
        p.state_spec() == ProducerState::Opening && event == ProducerEvent::Opened ==> a is Offer
            && q.state_spec() == ProducerState::Offering,
{
}

/// The message with which a request fails once no sample can come any more.
pub open spec fn closed_msg() -> Seq<char> {
    "unfortunately, failed sampling an image"@
}

/// Turns what the receiving end of the queue handed out into the outcome of
/// a random-image request: the sample itself, unchanged, or an error where
/// the queue is closed for good.
pub fn take_sample<T>(received: Option<T>) -> (r: Result<T, AppError>)
    ensures
        match received {
            Some(t) => r == Ok::<T, AppError>(t),
            None => r matches Err(AppError::SomeError { msg }) && msg@ == closed_msg(),
        },
{
    match received {
        Some(t) => Ok(t),
        None => Err(AppError::SomeError { msg: "unfortunately, failed sampling an image".to_owned() }),
    }
}

/// The paths of a directory listing that name regular files, in order.
pub open spec fn files_of(listing: Seq<(String, bool)>) -> Seq<String>
    decreases listing.len(),
{
    if listing.len() == 0 {
        Seq::empty()
    } else {
        let rest = files_of(listing.drop_last());
        if listing.last().1 {
            rest.push(listing.last().0)
        } else {
            rest
        }
    }
}

/// Builds the catalog from a directory listing: each entry is a path and
/// whether it names a regular file; only regular files are kept, in order.
pub fn catalog_from_listing(listing: &Vec<(String, bool)>) -> (r: Vec<String>)
    ensures
        r@ == files_of(listing@),
{
    let mut out: Vec<String> = Vec::new();
    let mut i: usize = 0;
    while i < listing.len()
        invariant
            i <= listing@.len(),
            out@ == files_of(listing@.take(i as int)),
        decreases listing@.len() - i,
    {
        assert(listing@.take(i + 1).drop_last() == listing@.take(i as int));
        if listing[i].1 {
            out.push(listing[i].0.clone());
        }
        i = i + 1;
    }
    assert(listing@.take(listing@.len() as int) == listing@);
    out
}

} // verus!
