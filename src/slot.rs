use vstd::prelude::*;

verus! {

/// Why the registration slot refused a request.
#[derive(Clone, Copy, PartialEq, Eq, Structural, Debug)]
pub enum SlotError {
    /// A producer is already registered; it is kept and the new one is refused.
    AlreadyRegistered,
    /// No producer has been registered yet.
    Empty,
}

/// Holds the producer handle that the native functions send through.
/// It is written once per session and read any number of times after.
pub struct RegistrationSlot<P> {
    producer: Option<P>,
}

impl<P> RegistrationSlot<P> {
    pub closed spec fn view(&self) -> Option<P> {
        self.producer
    }

    pub fn new() -> (r: RegistrationSlot<P>)
        ensures
            r@ == None::<P>,
    {
        RegistrationSlot { producer: None }
    }

    pub fn is_registered(&self) -> (r: bool)
        ensures
            r == self@.is_some(),
    {
        self.producer.is_some()
    }

    /// Stores the producer if the slot is empty. A second write is refused
    /// and hands the rejected producer back; the registered one stays.
    pub fn register(&mut self, producer: P) -> (r: Result<(), (SlotError, P)>)
        ensures
            final(self)@ == after_write(old(self)@, producer),
            old(self)@.is_none() ==> r is Ok,
            old(self)@.is_some() ==> r == Err::<(), (SlotError, P)>(
                (SlotError::AlreadyRegistered, producer),
            ),
    {
        if self.producer.is_some() {
            Err((SlotError::AlreadyRegistered, producer))
        } else {
            self.producer = Some(producer);
            Ok(())
        }
    }

    /// The registered producer, or `Empty` when none has been stored.
    pub fn producer(&self) -> (r: Result<&P, SlotError>)
        ensures
            self@.is_none() ==> r == Err::<&P, SlotError>(SlotError::Empty),
            self@.is_some() ==> r == Ok::<&P, SlotError>(&self@.unwrap()),
    {
        match &self.producer {
            Some(p) => Ok(p),
            None => Err(SlotError::Empty),
        }
    }

    /// The registered producer, for sending through.
    pub fn producer_mut(&mut self) -> (r: Result<&mut P, SlotError>)
        ensures
            old(self)@.is_none() ==> r is Err && final(self)@ == old(self)@,
            old(self)@.is_some() ==> r is Ok && *r->Ok_0 == old(self)@.unwrap()
                && final(self)@ == Some(*final(r->Ok_0)),
    {
        match &mut self.producer {
            Some(p) => Ok(p),
            None => Err(SlotError::Empty),
        }
    }
}

/// The slot's contents after one write attempt: an empty slot takes the
/// producer, a filled one keeps what it holds.
pub open spec fn after_write<P>(held: Option<P>, producer: P) -> Option<P> {
    if held is None {
        Some(producer)
    } else {
        held
    }
}

/// The slot's contents after a series of write attempts, in order.
pub open spec fn after_writes<P>(held: Option<P>, producers: Seq<P>) -> Option<P>
    decreases producers.len(),
{
    if producers.len() == 0 {
        held
    } else {
        after_writes(after_write(held, producers[0]), producers.drop_first())
    }
}

/// A filled slot is never overwritten: whatever writes follow, it keeps the
/// producer it holds.
pub proof fn lemma_filled_slot_kept<P>(held: P, producers: Seq<P>)
    ensures
        after_writes(Some(held), producers) == Some(held),
    decreases producers.len(),
{
    if producers.len() > 0 {
        lemma_filled_slot_kept(held, producers.drop_first());
    }
}

/// Starting empty, the slot accepts the first write of a session and no other:
/// after any series of attempts it holds the first producer written.
pub proof fn lemma_first_registration_kept<P>(producers: Seq<P>)
    requires
        producers.len() > 0,
    ensures
        after_writes(None, producers) == Some(producers[0]),
{
    lemma_filled_slot_kept(producers[0], producers.drop_first());
}

} // verus!
