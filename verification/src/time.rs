//! Moments in time, and what the calendar library says of them.

use vstd::prelude::*;

verus! {

pub const NANOS_PER_SEC: i128 = 1_000_000_000;

/// A moment as a Unix timestamp: seconds since 1970, and the nanoseconds into
/// that second. In a leap second the nanoseconds run on past one second.
pub struct UtcModel {
    pub secs: int,
    pub nanos: int,
}

/// A moment together with the offset, in seconds, of the clock that showed it.
pub struct ZonedModel {
    pub secs: int,
    pub nanos: int,
    pub offset: int,
}

/// The nanoseconds of a clock reading; only the last second of a minute can
/// be a leap second.
pub open spec fn valid_nanos(secs: int, nanos: int) -> bool {
    0 <= nanos < 1_000_000_000 || (1_000_000_000 <= nanos < 2_000_000_000 && secs % 60 == 59)
}

impl UtcModel {
    /// The moments that the calendar reaches, from the start of the year
    /// -262143 to the end of 262142.
    pub open spec fn valid(self) -> bool {
        &&& -8_334_601_228_800 <= self.secs <= 8_210_266_876_799
        &&& valid_nanos(self.secs, self.nanos)
    }

    /// Whether this moment comes after `other`.
    pub open spec fn after(self, other: UtcModel) -> bool {
        self.secs > other.secs || (self.secs == other.secs && self.nanos > other.nanos)
    }
}

impl ZonedModel {
    /// A moment that the local clock shows in the years 0 to 9999, on a clock
    /// less than a day away from UTC.
    pub open spec fn valid(self) -> bool {
        &&& -62_167_219_200 <= self.secs + self.offset <= 253_402_300_799
        &&& -86_400 < self.offset < 86_400
        &&& valid_nanos(self.secs, self.nanos)
    }

    /// Whether the clock is a whole number of minutes away from UTC.
    pub open spec fn on_the_minute(self) -> bool {
        self.offset % 60 == 0
    }

    /// The same moment, without the clock.
    pub open spec fn utc(self) -> UtcModel {
        UtcModel { secs: self.secs, nanos: self.nanos }
    }
}

/// The nanoseconds from `then` to `now`, negative where `now` comes first.
///
/// A leap second at the earlier time of day counts as a second of its own.
pub open spec fn elapsed_nanos(now: UtcModel, then: UtcModel) -> int {
    let plain = (now.secs - then.secs) * 1_000_000_000 + now.nanos - then.nanos;
    if now.secs % 86_400 > then.secs % 86_400 && then.nanos >= 1_000_000_000 {
        plain + 1_000_000_000
    } else if now.secs % 86_400 < then.secs % 86_400 && now.nanos >= 1_000_000_000 {
        plain - 1_000_000_000
    } else {
        plain
    }
}

/// A moment in UTC.
#[derive(Clone, Copy, Debug)]
pub struct UtcTime {
    secs: i64,
    nanos: u32,
}

impl View for UtcTime {
    type V = UtcModel;

    closed spec fn view(&self) -> UtcModel {
        UtcModel { secs: self.secs as int, nanos: self.nanos as int }
    }
}

impl UtcTime {
    #[verifier::type_invariant]
    spec fn inv(self) -> bool {
        self@.valid()
    }

    /// The moment of a Unix timestamp; `None` where the calendar does not
    /// reach it or the nanoseconds are none of a clock.
    pub fn new(secs: i64, nanos: u32) -> (r: Option<UtcTime>)
        ensures
            ({
                let m = UtcModel { secs: secs as int, nanos: nanos as int };
                if m.valid() {
                    r matches Some(t) && t@ == m
                } else {
                    r is None
                }
            }),
    {
        let in_range = -8_334_601_228_800 <= secs && secs <= 8_210_266_876_799;
        if in_range && nanos_of_a_clock(secs, nanos) {
            Some(UtcTime { secs, nanos })
        } else {
            None
        }
    }

    /// Seconds since 1970.
    pub fn secs(&self) -> (r: i64)
        ensures
            r == self@.secs,
    {
        self.secs
    }

    /// Nanoseconds into the second.
    pub fn nanos(&self) -> (r: u32)
        ensures
            r == self@.nanos,
    {
        self.nanos
    }

    /// Whether this moment comes after `other`.
    pub fn is_after(&self, other: &UtcTime) -> (r: bool)
        ensures
            r == self@.after(other@),
    {
        self.secs > other.secs || (self.secs == other.secs && self.nanos > other.nanos)
    }

    /// The nanoseconds from `then` to this moment.
    pub fn nanos_since(&self, then: &UtcTime) -> (r: i128)
        ensures
            r == elapsed_nanos(self@, then@),
            -17_000_000_000_000 * 1_000_000_000 <= r <= 17_000_000_000_000 * 1_000_000_000,
    {
        proof {
            use_type_invariant(self);
            use_type_invariant(then);
        }
        let (secs, nanos) = signed_duration_since(self.secs, self.nanos, then.secs, then.nanos);
        secs as i128 * NANOS_PER_SEC + nanos as i128
    }
}

/// A moment on a clock with a fixed offset from UTC.
#[derive(Clone, Copy, Debug)]
pub struct ZonedTime {
    secs: i64,
    nanos: u32,
    offset: i32,
}

impl View for ZonedTime {
    type V = ZonedModel;

    closed spec fn view(&self) -> ZonedModel {
        ZonedModel {
            secs: self.secs as int,
            nanos: self.nanos as int,
            offset: self.offset as int,
        }
    }
}

impl ZonedTime {
    #[verifier::type_invariant]
    spec fn inv(self) -> bool {
        self@.valid()
    }

    /// The moment of a Unix timestamp on a clock `offset` seconds east of UTC;
    /// `None` where that clock does not show a year of up to four digits.
    pub fn new(secs: i64, nanos: u32, offset: i32) -> (r: Option<ZonedTime>)
        ensures
            ({
                let m = ZonedModel {
                    secs: secs as int,
                    nanos: nanos as int,
                    offset: offset as int,
                };
                if m.valid() {
                    r matches Some(t) && t@ == m
                } else {
                    r is None
                }
            }),
    {
        let local: i128 = secs as i128 + offset as i128;
        let in_range = -62_167_219_200 <= local && local <= 253_402_300_799;
        if in_range && -86_400 < offset && offset < 86_400 && nanos_of_a_clock(secs, nanos) {
            Some(ZonedTime { secs, nanos, offset })
        } else {
            None
        }
    }

    /// Seconds since 1970.
    pub fn secs(&self) -> (r: i64)
        ensures
            r == self@.secs,
    {
        self.secs
    }

    /// Nanoseconds into the second.
    pub fn nanos(&self) -> (r: u32)
        ensures
            r == self@.nanos,
    {
        self.nanos
    }

    /// Seconds by which the clock is ahead of UTC.
    pub fn offset(&self) -> (r: i32)
        ensures
            r == self@.offset,
    {
        self.offset
    }

    /// The same moment in UTC.
    pub fn to_utc(&self) -> (r: UtcTime)
        ensures
            r@ == self@.utc(),
    {
        proof {
            use_type_invariant(self);
        }
        UtcTime { secs: self.secs, nanos: self.nanos }
    }

    /// The moment as RFC 3339 writes it.
    pub fn to_rfc3339(&self) -> (r: String)
        ensures
            r@ == rfc3339_text(self@.secs, self@.nanos, self@.offset),
    {
        proof {
            use_type_invariant(self);
        }
        write_rfc3339(self.secs, self.nanos, self.offset)
    }

    /// The moment as RFC 2822 writes it.
    pub fn to_rfc2822(&self) -> (r: String)
        ensures
            r@ == rfc2822_text(self@.secs, self@.nanos, self@.offset),
    {
        proof {
            use_type_invariant(self);
        }
        write_rfc2822(self.secs, self.nanos, self.offset)
    }

    /// The moment that an RFC 3339 text names.
    ///
    /// What [`ZonedTime::to_rfc3339`] wrote of a clock on the minute reads
    /// back as the same moment on the same clock.
    pub fn parse_from_rfc3339(text: &str) -> (r: Option<ZonedTime>)
        ensures
            zoned(r) == rfc3339_moment(text@),
            r matches Some(t) ==> t@.valid() && t@.on_the_minute(),
            reads_back_rfc3339(text@),
    {
        match read_rfc3339(text) {
            Some((secs, nanos, offset)) => {
                proof {
                    assert forall|t: ZonedModel|
                        t.valid() && t.on_the_minute() && text@ == #[trigger] rfc3339_text(
                            t.secs,
                            t.nanos,
                            t.offset,
                        ) implies rfc3339_moment(text@) == Some(t) by {
                        assert(rfc3339_parts(text@) == Some((t.secs, t.nanos, t.offset)));
                    }
                }
                Some(ZonedTime { secs, nanos, offset })
            },
            None => {
                proof {
                    assert forall|t: ZonedModel|
                        t.valid() && t.on_the_minute() && text@ == #[trigger] rfc3339_text(
                            t.secs,
                            t.nanos,
                            t.offset,
                        ) implies rfc3339_moment(text@) == Some(t) by {
                        assert(false);
                    }
                }
                None
            },
        }
    }
}

/// What an optional moment holds.
pub open spec fn zoned(o: Option<ZonedTime>) -> Option<ZonedModel> {
    match o {
        Some(t) => Some(t@),
        None => None,
    }
}

/// What an optional moment in UTC holds.
pub open spec fn utc(o: Option<UtcTime>) -> Option<UtcModel> {
    match o {
        Some(t) => Some(t@),
        None => None,
    }
}

/// The moment that an RFC 3339 text names, if it names one.
pub open spec fn rfc3339_moment(text: Seq<char>) -> Option<ZonedModel> {
    match rfc3339_parts(text) {
        Some((secs, nanos, offset)) => Some(ZonedModel { secs, nanos, offset }),
        None => None,
    }
}

/// Whether `text` reads back as each moment of which it is the RFC 3339 form.
pub open spec fn reads_back_rfc3339(text: Seq<char>) -> bool {
    forall|t: ZonedModel|
        t.valid() && t.on_the_minute() && text == #[trigger] rfc3339_text(
            t.secs,
            t.nanos,
            t.offset,
        ) ==> rfc3339_moment(text) == Some(t)
}

fn nanos_of_a_clock(secs: i64, nanos: u32) -> (r: bool)
    ensures
        r == valid_nanos(secs as int, nanos as int),
{
    if nanos < 1_000_000_000 {
        true
    } else {
        let second: i64 = if secs >= 0 {
            secs % 60
        } else {
            59 - (-(secs + 1)) % 60
        };
        nanos < 2_000_000_000 && second == 59
    }
}

// ---------------------------------------------------------------------------
// The calendar library
// ---------------------------------------------------------------------------

/// The seconds, nanoseconds and offset that `chrono` reads in an RFC 3339 text.
pub uninterp spec fn rfc3339_parts(text: Seq<char>) -> Option<(int, int, int)>;

/// The RFC 3339 form that `chrono` gives a moment on a clock.
pub uninterp spec fn rfc3339_text(secs: int, nanos: int, offset: int) -> Seq<char>;

/// The RFC 2822 form that `chrono` gives a moment on a clock.
pub uninterp spec fn rfc2822_text(secs: int, nanos: int, offset: int) -> Seq<char>;

/// The parts of a moment as numbers.
pub open spec fn parts_model(r: Option<(i64, u32, i32)>) -> Option<(int, int, int)> {
    match r {
        Some(p) => Some((p.0 as int, p.1 as int, p.2 as int)),
        None => None,
    }
}

/// Whether the parts, if there are any, are those of a valid moment on a clock
/// that is whole minutes away from UTC.
pub open spec fn parts_valid(r: Option<(i64, u32, i32)>) -> bool {
    match parts_model(r) {
        Some((secs, nanos, offset)) => {
            let m = ZonedModel { secs, nanos, offset };
            m.valid() && m.on_the_minute()
        },
        None => true,
    }
}

/// `chrono::DateTime::parse_from_rfc3339`.
///
/// Trusted: what is read depends on the text alone; it is a moment whose
/// local year has four digits and whose offset is in minutes; and the text
/// that `to_rfc3339` writes of such a moment reads back as that moment.
#[verifier::external_body]
fn read_rfc3339(text: &str) -> (r: Option<(i64, u32, i32)>)
    ensures
        parts_model(r) == rfc3339_parts(text@),
        parts_valid(r),
        forall|t: ZonedModel|
            t.valid() && t.on_the_minute() && text@ == #[trigger] rfc3339_text(
                t.secs,
                t.nanos,
                t.offset,
            ) ==> parts_model(r) == Some((t.secs, t.nanos, t.offset)),
{
    chrono::DateTime::parse_from_rfc3339(text)
        .ok()
        .map(|t| (t.timestamp(), t.timestamp_subsec_nanos(), t.offset().local_minus_utc()))
}

/// `chrono::DateTime::to_rfc3339`.
///
/// Trusted: the text depends on the moment and its clock alone. How the text
/// looks is left unsaid; [`read_rfc3339`] says that it can be read back.
#[verifier::external_body]
fn write_rfc3339(secs: i64, nanos: u32, offset: i32) -> (r: String)
    requires
        (ZonedModel { secs: secs as int, nanos: nanos as int, offset: offset as int }).valid(),
    ensures
        r@ == rfc3339_text(secs as int, nanos as int, offset as int),
{
    chrono::DateTime::from_timestamp(secs, nanos)
        .unwrap()
        .with_timezone(&chrono::FixedOffset::east_opt(offset).unwrap())
        .to_rfc3339()
}

/// `chrono::DateTime::to_rfc2822`, which panics on a local year outside 0 to
/// 9999.
///
/// Trusted: the text depends on the moment and its clock alone.
#[verifier::external_body]
fn write_rfc2822(secs: i64, nanos: u32, offset: i32) -> (r: String)
    requires
        (ZonedModel { secs: secs as int, nanos: nanos as int, offset: offset as int }).valid(),
    ensures
        r@ == rfc2822_text(secs as int, nanos as int, offset as int),
{
    chrono::DateTime::from_timestamp(secs, nanos)
        .unwrap()
        .with_timezone(&chrono::FixedOffset::east_opt(offset).unwrap())
        .to_rfc2822()
}

/// `chrono::DateTime::signed_duration_since`: the whole seconds of the
/// difference, rounded toward zero, and the nanoseconds that are left, of the
/// same sign.
///
/// Trusted: together they are the difference of the two moments, in which a
/// leap second counts where `chrono` counts it.
#[verifier::external_body]
fn signed_duration_since(secs: i64, nanos: u32, then_secs: i64, then_nanos: u32) -> (r: (i64, i32))
    requires
        (UtcModel { secs: secs as int, nanos: nanos as int }).valid(),
        (UtcModel { secs: then_secs as int, nanos: then_nanos as int }).valid(),
    ensures
        r.0 * 1_000_000_000 + r.1 == elapsed_nanos(
            UtcModel { secs: secs as int, nanos: nanos as int },
            UtcModel { secs: then_secs as int, nanos: then_nanos as int },
        ),
        -1_000_000_000 < r.1 < 1_000_000_000,
        r.0 > 0 ==> r.1 >= 0,
        r.0 < 0 ==> r.1 <= 0,
{
    let now = chrono::DateTime::from_timestamp(secs, nanos).unwrap();
    let then = chrono::DateTime::from_timestamp(then_secs, then_nanos).unwrap();
    let delta = now.signed_duration_since(then);
    (delta.num_seconds(), delta.subsec_nanos())
}

// ---------------------------------------------------------------------------
// Laws
// ---------------------------------------------------------------------------


/// Of two moments that differ one comes after the other, and a later second
/// comes after an earlier one.
pub proof fn law_after_is_an_order(a: UtcModel, b: UtcModel, c: UtcModel)
    ensures
        a.secs > b.secs ==> a.after(b),
        a.secs == b.secs && a.nanos > b.nanos ==> a.after(b),
        a.after(b) ==> !b.after(a),
        a.after(b) && b.after(c) ==> a.after(c),
        a.after(b) || b.after(a) <==> a != b,
{
}

/// Outside of leap seconds, time passes as the clock shows it.
pub proof fn law_time_passes(now: UtcModel, then: UtcModel)
    requires
        now.nanos < 1_000_000_000,
        then.nanos < 1_000_000_000,
    ensures
        elapsed_nanos(now, then) == (now.secs - then.secs) * 1_000_000_000 + now.nanos
            - then.nanos,
{
}

/// From one moment to another it is as long as back, and no time passes from a
/// moment to itself.
pub proof fn law_time_passes_both_ways(now: UtcModel, then: UtcModel)
    ensures
        elapsed_nanos(now, then) == -elapsed_nanos(then, now),
        elapsed_nanos(now, now) == 0,
{
}

/// Whatever the clock of a moment, it is the same moment. Every moment that the
/// calendar reaches can be held, and on a clock every one of the years 0 to 9999
/// there.
pub proof fn law_clocks_show_moments(secs: int, nanos: int, offset: int)
    ensures
        (ZonedModel { secs, nanos, offset }).utc() == (UtcModel { secs, nanos }),
        0 <= nanos < 1_000_000_000 || (1_000_000_000 <= nanos < 2_000_000_000 && secs % 60 == 59)
            ==> ((UtcModel { secs, nanos }).valid() <==> -8_334_601_228_800 <= secs
            <= 8_210_266_876_799),
        0 <= nanos < 1_000_000_000 || (1_000_000_000 <= nanos < 2_000_000_000 && secs % 60 == 59)
            ==> ((ZonedModel { secs, nanos, offset }).valid() <==> -62_167_219_200 <= secs + offset
            <= 253_402_300_799 && -86_400 < offset < 86_400),
        (ZonedModel { secs, nanos, offset }).on_the_minute() <==> offset % 60 == 0,
{
}

/// A text that names a moment names the one that was read in it, and no other
/// text does.
pub proof fn law_texts_name_moments(text: Seq<char>)
    ensures
        rfc3339_parts(text) is None <==> rfc3339_moment(text) is None,
        rfc3339_parts(text) matches Some(p) ==> (rfc3339_moment(text) matches Some(t) && t.secs
            == p.0 && t.nanos == p.1 && t.offset == p.2),
{
}

} // verus!
