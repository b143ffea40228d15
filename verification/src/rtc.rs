//! The real-time clock: which registers to read, in what order, and how to
//! turn what they hold into a date and a time.
//!
//! Reading the chip is the caller's business.  [`Rtc`] tells the caller which
//! register to select next and takes the byte that was read; after the last
//! byte it hands out the decoded [`DateTime`].

use vstd::prelude::*;
use vstd::string::*;
use crate::text::push_two_digits;
use crate::text::two_digits;

verus! {

/// The port on which a register of the clock chip is selected.
pub const RTC_ADDR: u16 = 0x70;

/// The port on which the selected register is read.
pub const RTC_DATA: u16 = 0x71;

/// Status register A; its top bit is set while the chip updates its counters.
pub const STATUS_A: u8 = 0x0A;

/// Status register B; bit 2 tells binary counters from BCD ones.
pub const STATUS_B: u8 = 0x0B;

/// A moment as the clock chip counts it.  No field is range-checked: the
/// values are what the hardware reported.
#[derive(Debug, Clone, Copy, PartialEq, Eq, Structural)]
pub struct DateTime {
    pub second: u8,
    pub minute: u8,
    pub hour: u8,
    pub day: u8,
    pub month: u8,
    pub year: u8,
}

/// The number that a BCD byte stands for: its high nibble counts tens, its low
/// nibble counts units.
pub open spec fn bcd_value(bcd: u8) -> int {
    (bcd as int / 16) * 10 + bcd as int % 16
}

/// The BCD byte for two decimal digits.
pub open spec fn bcd_byte(tens: int, units: int) -> u8 {
    (tens * 16 + units) as u8
}

/// Whether status register A reports an update in progress (bit `0x80`).
pub open spec fn update_in_progress(status_a: u8) -> bool {
    status_a & 0x80 != 0
}

/// Whether status register B reports BCD counters (bit `0x04` clear).
pub open spec fn counts_in_bcd(status_b: u8) -> bool {
    status_b & 0x04 == 0
}

/// The register that holds the field with the given position in a read:
/// seconds, minutes, hours, day of month, month, year.
pub open spec fn field_register(position: int) -> u8 {
    if position == 0 {
        0x00
    } else if position == 1 {
        0x02
    } else if position == 2 {
        0x04
    } else if position == 3 {
        0x07
    } else if position == 4 {
        0x08
    } else {
        0x09
    }
}

/// One counter as a number, given what status register B said.
pub open spec fn decoded_field(raw: u8, status_b: u8) -> u8 {
    if counts_in_bcd(status_b) {
        bcd_value(raw) as u8
    } else {
        raw
    }
}

/// The date and time that six raw counters stand for, given what status
/// register B said.
pub open spec fn decoded(raw: DateTime, status_b: u8) -> DateTime {
    DateTime {
        second: decoded_field(raw.second, status_b),
        minute: decoded_field(raw.minute, status_b),
        hour: decoded_field(raw.hour, status_b),
        day: decoded_field(raw.day, status_b),
        month: decoded_field(raw.month, status_b),
        year: decoded_field(raw.year, status_b),
    }
}

/// Six counters in reading order, as a `DateTime` that is still raw.
pub open spec fn raw_datetime(fields: Seq<u8>) -> DateTime
    recommends
        fields.len() == 6,
{
    DateTime {
        second: fields[0],
        minute: fields[1],
        hour: fields[2],
        day: fields[3],
        month: fields[4],
        year: fields[5],
    }
}

/// `HH:MM:SS`, each field zero-padded to two digits.
pub open spec fn time_text(t: DateTime) -> Seq<char> {
    two_digits(t.hour as nat) + seq![':'] + two_digits(t.minute as nat) + seq![':'] + two_digits(
        t.second as nat,
    )
}

/// `DD/MM/20YY`, each field zero-padded to two digits.
pub open spec fn date_text(t: DateTime) -> Seq<char> {
    two_digits(t.day as nat) + seq!['/'] + two_digits(t.month as nat) + seq!['/', '2', '0']
        + two_digits(t.year as nat)
}

/// The date, a space, the time.
pub open spec fn full_text(t: DateTime) -> Seq<char> {
    date_text(t) + seq![' '] + time_text(t)
}

/// Decodes one BCD byte.
pub fn bcd_to_bin(bcd: u8) -> (bin: u8)
    ensures
        bin == bcd_value(bcd),
{
    assert(bcd >> 4 == bcd / 16) by (bit_vector);
    assert(bcd & 0x0F == bcd % 16) by (bit_vector);
    ((bcd >> 4) * 10) + (bcd & 0x0F)
}

/// Decoding the BCD byte of two decimal digits gives back the number they
/// spell.
pub proof fn lemma_bcd_round_trip(tens: int, units: int)
    requires
        0 <= tens <= 9,
        0 <= units <= 9,
    ensures
        bcd_value(bcd_byte(tens, units)) == tens * 10 + units,
        bcd_byte(tens, units) == ((tens as u8) << 4) | (units as u8),
{
    let t = tens as u8;
    let u = units as u8;
    assert(t <= 9 && u <= 9 ==> ((t << 4) | u) == t * 16 + u) by (bit_vector);
}

/// Whether the chip is in the middle of an update, by status register A.
pub fn is_updating(status_a: u8) -> (busy: bool)
    ensures
        busy == update_in_progress(status_a),
{
    status_a & 0x80 != 0
}

/// Turns six raw counters into a date and time, by status register B.
pub fn decode(raw: DateTime, status_b: u8) -> (t: DateTime)
    ensures
        t == decoded(raw, status_b),
{
    if status_b & 0x04 == 0 {
        DateTime {
            second: bcd_to_bin(raw.second),
            minute: bcd_to_bin(raw.minute),
            hour: bcd_to_bin(raw.hour),
            day: bcd_to_bin(raw.day),
            month: bcd_to_bin(raw.month),
            year: bcd_to_bin(raw.year),
        }
    } else {
        raw
    }
}

impl DateTime {
    /// The time of day as `HH:MM:SS`.
    pub fn format_time(&self) -> (s: String)
        ensures
            s@ == time_text(*self),
    {
        proof {
            reveal_strlit(":");
        }
        let mut s = String::new();
        push_two_digits(&mut s, self.hour);
        s.append(":");
        push_two_digits(&mut s, self.minute);
        s.append(":");
        push_two_digits(&mut s, self.second);
        assert(s@ =~= time_text(*self));
        s
    }

    /// The date as `DD/MM/20YY`.  The century is always written `20`.
    pub fn format_date(&self) -> (s: String)
        ensures
            s@ == date_text(*self),
    {
        proof {
            reveal_strlit("/");
            reveal_strlit("/20");
        }
        let mut s = String::new();
        push_two_digits(&mut s, self.day);
        s.append("/");
        push_two_digits(&mut s, self.month);
        s.append("/20");
        push_two_digits(&mut s, self.year);
        assert(s@ =~= date_text(*self));
        s
    }

    /// The date, a space, and the time.
    pub fn format_full(&self) -> (s: String)
        ensures
            s@ == full_text(*self),
    {
        proof {
            reveal_strlit(" ");
        }
        let mut s = self.format_date();
        s.append(" ");
        let time = self.format_time();
        s.append(time.as_str());
        assert(s@ =~= full_text(*self));
        s
    }
}

/// Where a read of the clock stands.
pub struct RtcState {
    /// Status register A has been seen with its update bit clear.
    pub synced: bool,
    /// The raw counters read since then, in reading order.
    pub raw: Seq<u8>,
}

impl RtcState {
    /// No read under way.
    pub open spec fn idle() -> RtcState {
        RtcState { synced: false, raw: Seq::empty() }
    }

    /// The states a driver can be in.
    pub open spec fn wf(self) -> bool {
        self.raw.len() <= 6 && (!self.synced ==> self.raw.len() == 0)
    }

    /// The register to select and read next.
    pub open spec fn register(self) -> u8 {
        if !self.synced {
            STATUS_A
        } else if self.raw.len() < 6 {
            field_register(self.raw.len() as int)
        } else {
            STATUS_B
        }
    }

    /// The state after `value` was read from [`Self::register`].
    ///
    /// While the chip reports an update the driver keeps asking for status
    /// register A.  Once the update bit is clear it collects the six counters,
    /// and the byte after those, status register B, ends the read.
    pub open spec fn next(self, value: u8) -> RtcState {
        if !self.synced {
            RtcState { synced: !update_in_progress(value), raw: Seq::empty() }
        } else if self.raw.len() < 6 {
            RtcState { synced: true, raw: self.raw.push(value) }
        } else {
            RtcState::idle()
        }
    }

    /// The date and time that the read ends with when `value` is read from
    /// [`Self::register`], if that byte ends it.
    pub open spec fn result(self, value: u8) -> Option<DateTime> {
        if self.synced && self.raw.len() >= 6 {
            Some(decoded(raw_datetime(self.raw), value))
        } else {
            None
        }
    }

    /// The state after each of `values` was read in turn.
    pub open spec fn after(self, values: Seq<u8>) -> RtcState
        decreases values.len(),
    {
        if values.len() == 0 {
            self
        } else {
            self.after(values.drop_last()).next(values.last())
        }
    }
}

/// The counters of a `DateTime` in reading order.
pub open spec fn counters(t: DateTime) -> Seq<u8> {
    seq![t.second, t.minute, t.hour, t.day, t.month, t.year]
}

/// The driver of the real-time clock.
pub struct Rtc {
    synced: bool,
    count: u8,
    raw: DateTime,
}

impl View for Rtc {
    type V = RtcState;

    closed spec fn view(&self) -> RtcState {
        RtcState { synced: self.synced, raw: counters(self.raw).take(self.count as int) }
    }
}

impl Rtc {
    #[verifier::type_invariant]
    spec fn well_formed(self) -> bool {
        self.count <= 6 && (!self.synced ==> self.count == 0)
    }

    /// A driver with no read under way.
    pub fn new() -> (rtc: Rtc)
        ensures
            rtc@ == RtcState::idle(),
    {
        let raw = DateTime { second: 0, minute: 0, hour: 0, day: 0, month: 0, year: 0 };
        let rtc = Rtc { synced: false, count: 0, raw };
        assert(rtc@.raw =~= Seq::<u8>::empty());
        rtc
    }

    /// The register that the caller has to select and read next.
    pub fn next_register(&self) -> (reg: u8)
        ensures
            self@.wf(),
            reg == self@.register(),
    {
        proof {
            use_type_invariant(self);
        }
        if !self.synced {
            STATUS_A
        } else if self.count == 0 {
            0x00
        } else if self.count == 1 {
            0x02
        } else if self.count == 2 {
            0x04
        } else if self.count == 3 {
            0x07
        } else if self.count == 4 {
            0x08
        } else if self.count == 5 {
            0x09
        } else {
            STATUS_B
        }
    }

    /// Takes the byte that was read from the register [`Self::next_register`]
    /// named, and hands out the date and time when that byte completes a read.
    ///
    /// A read is complete after status register A was seen without its update
    /// bit, the six counters were read, and status register B arrived.  The
    /// driver is then idle again, so the next byte starts a new read.
    pub fn read_datetime(&mut self, value: u8) -> (done: Option<DateTime>)
        ensures
            old(self)@.wf(),
            final(self)@.wf(),
            final(self)@ == old(self)@.next(value),
            done == old(self)@.result(value),
    {
        proof {
            use_type_invariant(&*self);
        }
        if !self.synced {
            self.synced = !is_updating(value);
            assert(self@.raw =~= Seq::<u8>::empty());
            None
        } else if self.count < 6 {
            if self.count == 0 {
                self.raw.second = value;
            } else if self.count == 1 {
                self.raw.minute = value;
            } else if self.count == 2 {
                self.raw.hour = value;
            } else if self.count == 3 {
                self.raw.day = value;
            } else if self.count == 4 {
                self.raw.month = value;
            } else {
                self.raw.year = value;
            }
            self.count = self.count + 1;
            assert(self@.raw =~= old(self)@.raw.push(value));
            None
        } else {
            assert(counters(self.raw).take(6) =~= counters(self.raw));
            let raw = self.raw;
            self.count = 0;
            self.synced = false;
            assert(self@.raw =~= Seq::<u8>::empty());
            Some(decode(raw, value))
        }
    }
}

/// A whole read, from an idle driver: however long the chip reports an update,
/// the driver asks for nothing but status register A; once the update bit is
/// clear it asks for the six counters in their order and then for status
/// register B, and the bytes it was given decode to the date and time it
/// hands out.
pub proof fn lemma_read_cycle(busy: Seq<u8>, clear: u8, raw: DateTime, status_b: u8)
    requires
        forall|i: int| 0 <= i < busy.len() ==> update_in_progress(#[trigger] busy[i]),
        !update_in_progress(clear),
    ensures
        forall|k: int|
            0 <= k <= busy.len() ==> (#[trigger] RtcState::idle().after(busy.take(k))).register()
                == STATUS_A,
        ({
            let synced = RtcState::idle().after(busy.push(clear));
            &&& forall|k: int|
                0 <= k < 6 ==> (#[trigger] synced.after(counters(raw).take(k))).register()
                    == field_register(k)
            &&& synced.after(counters(raw)).register() == STATUS_B
            &&& synced.after(counters(raw)).result(status_b) == Some(decoded(raw, status_b))
            &&& synced.after(counters(raw)).next(status_b) == RtcState::idle()
        }),
{
    let idle = RtcState::idle();
    assert forall|k: int| 0 <= k <= busy.len() implies (#[trigger] idle.after(busy.take(k)))
        == idle by {
        lemma_busy_stays_idle(busy, k);
    }
    lemma_busy_stays_idle(busy, busy.len() as int);
    assert(busy.take(busy.len() as int) =~= busy);
    assert(busy.push(clear).drop_last() =~= busy);
    let synced = idle.after(busy.push(clear));
    assert(synced == RtcState { synced: true, raw: Seq::<u8>::empty() });
    let counters = counters(raw);
    assert forall|k: int| 0 <= k <= 6 implies (#[trigger] synced.after(counters.take(k)))
        == (RtcState { synced: true, raw: counters.take(k) }) by {
        lemma_collects(synced, counters, k);
    }
    assert(counters.take(6) =~= counters);
    assert(raw_datetime(counters) == raw);
}

/// While every byte reports an update, the driver stays where it began.
proof fn lemma_busy_stays_idle(busy: Seq<u8>, k: int)
    requires
        forall|i: int| 0 <= i < busy.len() ==> update_in_progress(#[trigger] busy[i]),
        0 <= k <= busy.len(),
    ensures
        RtcState::idle().after(busy.take(k)) == RtcState::idle(),
    decreases k,
{
    if k > 0 {
        lemma_busy_stays_idle(busy, k - 1);
        assert(busy.take(k).drop_last() =~= busy.take(k - 1));
        assert(busy.take(k).last() == busy[k - 1]);
    }
}

/// A synced driver with nothing collected holds, after `k` counters, exactly
/// those counters.
proof fn lemma_collects(synced: RtcState, counters: Seq<u8>, k: int)
    requires
        synced == (RtcState { synced: true, raw: Seq::<u8>::empty() }),
        counters.len() == 6,
        0 <= k <= 6,
    ensures
        synced.after(counters.take(k)) == (RtcState { synced: true, raw: counters.take(k) }),
    decreases k,
{
    if k > 0 {
        lemma_collects(synced, counters, k - 1);
        assert(counters.take(k).drop_last() =~= counters.take(k - 1));
        assert(counters.take(k).last() == counters[k - 1]);
        assert(counters.take(k - 1).push(counters[k - 1]) =~= counters.take(k));
    } else {
        assert(counters.take(0) =~= Seq::<u8>::empty());
    }
}

} // verus!
