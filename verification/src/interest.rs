//! What a task waits for on a descriptor, and how the OS multiplexer writes it.

use vstd::prelude::*;

verus! {

/// The flag that epoll sets for a descriptor that can be read.
pub const READABLE: u32 = 0x0000_0001;

/// The flag that epoll sets for a descriptor that can be written.
pub const WRITABLE: u32 = 0x0000_0004;

/// The flag that asks epoll to report a descriptor once and then disarm it.
pub const ONE_SHOT: u32 = 0x4000_0000;

/// `epoll::Events::EPOLLIN`, as bits.
#[verifier::external_body]
fn epoll_in() -> (bits: u32)
    ensures
        bits == READABLE,
{
    epoll::Events::EPOLLIN.bits()
}

/// `epoll::Events::EPOLLOUT`, as bits.
#[verifier::external_body]
fn epoll_out() -> (bits: u32)
    ensures
        bits == WRITABLE,
{
    epoll::Events::EPOLLOUT.bits()
}

/// `epoll::Events::EPOLLONESHOT`, as bits.
#[verifier::external_body]
fn epoll_one_shot() -> (bits: u32)
    ensures
        bits == ONE_SHOT,
{
    epoll::Events::EPOLLONESHOT.bits()
}

/// The direction in which a task wants to use a descriptor.
#[derive(Debug, Clone, Copy, PartialEq, Eq, Structural)]
pub enum Interest {
    Read,
    Write,
    ReadWrite,
}

impl Default for Interest {
    fn default() -> (interest: Self)
        ensures
            interest == Interest::ReadWrite,
    {
        Interest::ReadWrite
    }
}

impl Interest {
    /// The flags that request this interest: the direction, reported once.
    pub open spec fn spec_bits(self) -> u32 {
        match self {
            Interest::Read => ONE_SHOT | READABLE,
            Interest::Write => ONE_SHOT | WRITABLE,
            Interest::ReadWrite => ONE_SHOT | WRITABLE | READABLE,
        }
    }

    /// The interest that a set of reported flags stands for: both directions
    /// where both flags are set, one direction where one is, and both again
    /// where neither is.
    pub open spec fn spec_from_bits(bits: u32) -> Interest {
        if bits & READABLE == READABLE && bits & WRITABLE == WRITABLE {
            Interest::ReadWrite
        } else if bits & READABLE == READABLE {
            Interest::Read
        } else if bits & WRITABLE == WRITABLE {
            Interest::Write
        } else {
            Interest::ReadWrite
        }
    }

    /// The flags to hand to epoll for this interest.
    #[verifier::when_used_as_spec(spec_bits)]
    pub fn bits(self) -> (bits: u32)
        ensures
            bits == self.spec_bits(),
    {
        match self {
            Interest::Read => epoll_one_shot() | epoll_in(),
            Interest::Write => epoll_one_shot() | epoll_out(),
            Interest::ReadWrite => epoll_one_shot() | epoll_out() | epoll_in(),
        }
    }

    /// Reads an interest off the flags that epoll reported.
    #[verifier::when_used_as_spec(spec_from_bits)]
    pub fn from_bits(bits: u32) -> (interest: Self)
        ensures
            interest == Interest::spec_from_bits(bits),
    {
        let readable = bits & epoll_in() == epoll_in();
        let writable = bits & epoll_out() == epoll_out();
        if readable && writable {
            return Interest::ReadWrite;
        }
        if readable {
            return Interest::Read;
        }
        if writable {
            return Interest::Write;
        }
        Interest::ReadWrite
    }
}

/// The flags of an interest always ask for a single report, and reading them
/// back gives the interest they were made from.
pub proof fn lemma_interest_bits_round_trip(interest: Interest)
    ensures
        interest.bits() & ONE_SHOT == ONE_SHOT,
        Interest::from_bits(interest.bits()) == interest,
{
    assert((ONE_SHOT | READABLE) & ONE_SHOT == ONE_SHOT) by (bit_vector);
    assert((ONE_SHOT | WRITABLE) & ONE_SHOT == ONE_SHOT) by (bit_vector);
    assert((ONE_SHOT | WRITABLE | READABLE) & ONE_SHOT == ONE_SHOT) by (bit_vector);
    assert((ONE_SHOT | READABLE) & READABLE == READABLE) by (bit_vector);
    assert((ONE_SHOT | READABLE) & WRITABLE != WRITABLE) by (bit_vector);
    assert((ONE_SHOT | WRITABLE) & READABLE != READABLE) by (bit_vector);
    assert((ONE_SHOT | WRITABLE) & WRITABLE == WRITABLE) by (bit_vector);
    assert((ONE_SHOT | WRITABLE | READABLE) & READABLE == READABLE) by (bit_vector);
    assert((ONE_SHOT | WRITABLE | READABLE) & WRITABLE == WRITABLE) by (bit_vector);
}

/// A descriptor together with an interest: what is armed, and what is reported.
#[derive(Debug, Clone, Copy, PartialEq, Eq, Structural)]
pub struct Event {
    pub fd: i32,
    pub interest: Interest,
}

impl Default for Event {
    fn default() -> (event: Self)
        ensures
            event == (Event { fd: 0, interest: Interest::ReadWrite }),
    {
        Event { fd: 0, interest: Interest::ReadWrite }
    }
}

impl Event {
    /// The event for `fd` and `interest`.
    pub fn new(fd: i32, interest: Interest) -> (event: Self)
        ensures
            event == (Event { fd, interest }),
    {
        Event { fd, interest }
    }

    /// The flags and the user data of the epoll event that arms this event:
    /// the flags of the interest, and the descriptor widened to 64 bits.
    pub open spec fn spec_raw(self) -> (u32, u64) {
        (self.interest.bits(), self.fd as u64)
    }

    /// The event that epoll reported with these flags and this user data: the
    /// descriptor is the low 32 bits of the data.
    pub open spec fn spec_from_raw(bits: u32, data: u64) -> Event {
        Event { fd: data as i32, interest: Interest::from_bits(bits) }
    }

    /// The flags and the user data to hand to epoll for this event.
    #[verifier::when_used_as_spec(spec_raw)]
    pub fn raw(self) -> (raw: (u32, u64))
        ensures
            raw == self.spec_raw(),
    {
        (self.interest.bits(), self.fd as u64)
    }

    /// Reads an event off the flags and the user data that epoll reported.
    #[verifier::when_used_as_spec(spec_from_raw)]
    pub fn from_raw(bits: u32, data: u64) -> (event: Self)
        ensures
            event == Event::spec_from_raw(bits, data),
    {
        Event { fd: data as i32, interest: Interest::from_bits(bits) }
    }
}

/// The user data of an event is the descriptor itself where that is not
/// negative, and the descriptor plus 2^64 where it is.
pub proof fn lemma_event_data(event: Event)
    ensures
        event.fd >= 0 ==> event.raw().1 == event.fd,
        event.fd < 0 ==> event.raw().1 == event.fd + 0x1_0000_0000_0000_0000,
{
    let fd = event.fd;
    assert(fd >= 0 ==> fd as u64 == fd) by (bit_vector);
    assert(fd < 0 ==> fd as u64 == fd + 0x1_0000_0000_0000_0000) by (bit_vector);
}

/// Writing an event for epoll and reading it back gives the same event.
pub proof fn lemma_event_round_trip(event: Event)
    ensures
        Event::from_raw(event.raw().0, event.raw().1) == event,
{
    lemma_interest_bits_round_trip(event.interest);
    let fd = event.fd;
    assert((fd as u64) as i32 == fd) by (bit_vector);
}

/// The timeout to hand to epoll: `-1`, which waits without limit, where none is
/// given, and else the number of milliseconds as a signed 32-bit number.
pub open spec fn spec_timeout_millis(timeout: Option<u32>) -> i32 {
    match timeout {
        None => -1i32,
        Some(millis) => millis as i32,
    }
}

/// The timeout to hand to epoll for an optional number of milliseconds.
#[verifier::when_used_as_spec(spec_timeout_millis)]
pub fn timeout_millis(timeout: Option<u32>) -> (millis: i32)
    ensures
        millis == spec_timeout_millis(timeout),
{
    match timeout {
        None => -1,
        Some(millis) => millis as i32,
    }
}

/// A number of milliseconds that fits in 31 bits is handed on as it is; a
/// larger one comes out negative, which epoll takes as no limit.
pub proof fn lemma_timeout_millis(millis: u32)
    ensures
        millis <= i32::MAX ==> timeout_millis(Some(millis)) == millis,
        millis > i32::MAX ==> timeout_millis(Some(millis)) == millis - 0x1_0000_0000,
{
    assert(millis <= 0x7fff_ffffu32 ==> millis as i32 == millis) by (bit_vector);
    assert(millis > 0x7fff_ffffu32 ==> millis as i32 == millis - 0x1_0000_0000) by (bit_vector);
}

/// Reads every reported epoll event, given as flags and user data, in order.
pub fn events_from_raw(raw: &Vec<(u32, u64)>) -> (events: Vec<Event>)
    ensures
        events@.len() == raw@.len(),
        forall|i: int|
            0 <= i < raw@.len() ==> #[trigger] events@[i] == Event::from_raw(raw@[i].0, raw@[i].1),
{
    let mut events: Vec<Event> = Vec::new();
    let mut i: usize = 0;
    while i < raw.len()
        invariant
            i <= raw@.len(),
            events@.len() == i,
            forall|j: int|
                0 <= j < i ==> #[trigger] events@[j] == Event::from_raw(raw@[j].0, raw@[j].1),
        decreases raw@.len() - i,
    {
        let (bits, data) = raw[i];
        events.push(Event::from_raw(bits, data));
        i += 1;
    }
    events
}

} // verus!
