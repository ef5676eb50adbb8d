//! One snapshot of the machine's state and the status line made from it.
use vstd::prelude::*;
use vstd::string::*;
use crate::text::{decimal, decimal_string, hundredths_string, hundredths_text, tenths_string, tenths_text};

verus! {

/// The text placed after every shown field but the last.
pub open spec fn separator() -> Seq<char> {
    " ⸱ "@
}

/// One reading of the four metrics and the local date and time.
/// A `None` reading is one that the system could not give.
#[derive(Debug)]
pub struct MetricSample {
    /// Whether the machine runs on mains power.
    pub plugged: Option<bool>,
    /// Charge left in the battery, in tenths of a percent (`873` is 87.3%).
    pub battery: Option<u64>,
    /// Memory in use: total less free, buffers and shared.
    pub memory_used: Option<u64>,
    /// One-minute load average, in hundredths (`42` is 0.42).
    pub load: Option<u64>,
    /// Day and time of day, as the clock field shows them.
    pub date: String,
}

pub open spec fn plugged_text(p: Option<bool>) -> Seq<char> {
    match p {
        Some(true) => "🔌 ✓"@,
        Some(false) => "🔌 ✘"@,
        None => "🔌"@,
    }
}

pub open spec fn battery_text(b: Option<u64>) -> Seq<char> {
    match b {
        Some(t) => "🔋 "@ + tenths_text(t as nat) + "%"@,
        None => Seq::empty(),
    }
}

pub open spec fn memory_text(m: Option<u64>) -> Seq<char> {
    match m {
        Some(n) => "▯ "@ + decimal(n as nat),
        None => "▯ _"@,
    }
}

pub open spec fn load_text(l: Option<u64>) -> Seq<char> {
    match l {
        Some(h) => "⚙ "@ + hundredths_text(h as nat),
        None => "⚙ _"@,
    }
}

pub open spec fn date_text(d: Seq<char>) -> Seq<char> {
    "📆 "@ + d
}

/// A field followed by the separator, or nothing for an empty field.
pub open spec fn separated_text(s: Seq<char>) -> Seq<char> {
    if s.len() == 0 {
        s
    } else {
        s + separator()
    }
}

/// Everything of the status line before the date field.
pub open spec fn status_prefix(s: MetricSample) -> Seq<char> {
    separated_text(plugged_text(s.plugged)) + separated_text(battery_text(s.battery))
        + separated_text(memory_text(s.memory_used)) + separated_text(load_text(s.load))
}

/// The status line of a sample.
pub open spec fn status_text(s: MetricSample) -> Seq<char> {
    status_prefix(s) + date_text(s.date@)
}

/// Memory in use from the four figures of the kernel, or `None` where the
/// free, buffered and shared parts add up to more than the total.
pub open spec fn used_memory_spec(total: nat, free: nat, buffers: nat, shared: nat) -> Option<nat> {
    if free + buffers + shared <= total {
        Some((total - free - buffers - shared) as nat)
    } else {
        None
    }
}

/// Memory in use: `total - free - buffers - shared`, or `None` where that
/// would fall below zero.
pub fn used_memory(total: u64, free: u64, buffers: u64, shared: u64) -> (r: Option<u64>)
    ensures
        r matches Some(n) ==> used_memory_spec(total as nat, free as nat, buffers as nat, shared as nat)
            == Some(n as nat),
        r is None ==> used_memory_spec(total as nat, free as nat, buffers as nat, shared as nat)
            is None,
{
    if free > total {
        return None;
    }
    let a = total - free;
    if buffers > a {
        return None;
    }
    let b = a - buffers;
    if shared > b {
        return None;
    }
    Some(b - shared)
}

/// The power field: a plug, with a check mark or a cross when known.
pub fn plugged_field(p: Option<bool>) -> (r: String)
    ensures
        r@ == plugged_text(p),
{
    match p {
        Some(true) => String::from_str("🔌 ✓"),
        Some(false) => String::from_str("🔌 ✘"),
        None => String::from_str("🔌"),
    }
}

/// The battery field, empty when the charge is unknown.
pub fn battery_field(b: Option<u64>) -> (r: String)
    ensures
        r@ == battery_text(b),
{
    match b {
        Some(t) => {
            let r = String::from_str("🔋 ").concat(tenths_string(t).as_str()).concat("%");
            r
        },
        None => String::new(),
    }
}

/// The memory field, with `_` when the figure is unknown.
pub fn memory_field(m: Option<u64>) -> (r: String)
    ensures
        r@ == memory_text(m),
{
    match m {
        Some(n) => String::from_str("▯ ").concat(decimal_string(n).as_str()),
        None => String::from_str("▯ _"),
    }
}

/// The load field, with `_` when the figure is unknown.
pub fn load_field(l: Option<u64>) -> (r: String)
    ensures
        r@ == load_text(l),
{
    match l {
        Some(h) => String::from_str("⚙ ").concat(hundredths_string(h).as_str()),
        None => String::from_str("⚙ _"),
    }
}

/// A field followed by the separator; an empty field stays empty.
pub fn separated(s: String) -> (r: String)
    ensures
        r@ == separated_text(s@),
{
    if s.as_str().is_empty() {
        s
    } else {
        s.concat(" ⸱ ")
    }
}

/// The status line: power, battery, memory and load, each shown one
/// followed by the separator, then the date field.
pub fn status(s: &MetricSample) -> (r: String)
    ensures
        r@ == status_text(*s),
{
    let r = separated(plugged_field(s.plugged))
        .concat(separated(battery_field(s.battery)).as_str())
        .concat(separated(memory_field(s.memory_used)).as_str())
        .concat(separated(load_field(s.load)).as_str())
        .concat("📆 ")
        .concat(s.date.as_str());
    assert(r@ =~= status_text(*s));
    r
}

pub open spec fn is_digit(c: char) -> bool {
    '0' <= c && c <= '9'
}

pub open spec fn is_letter(c: char) -> bool {
    ('a' <= c && c <= 'z') || ('A' <= c && c <= 'Z')
}

/// The shape of the date text, as in `Mon, 01 Jan ⸱ 🕓 00:00`: a weekday of
/// three letters, a comma and a space, a day of two digits, a space, a month
/// of three letters, the clock glyph between spaces and a separator, and the
/// hour and minute of two digits each.
pub open spec fn date_shaped(d: Seq<char>) -> bool {
    &&& d.len() == 21
    &&& is_letter(d[0]) && is_letter(d[1]) && is_letter(d[2])
    &&& d[3] == ',' && d[4] == ' '
    &&& is_digit(d[5]) && is_digit(d[6])
    &&& d[7] == ' '
    &&& is_letter(d[8]) && is_letter(d[9]) && is_letter(d[10])
    &&& d[11] == ' ' && d[12] == '⸱' && d[13] == ' ' && d[14] == '🕓' && d[15] == ' '
    &&& is_digit(d[16]) && is_digit(d[17])
    &&& d[18] == ':'
    &&& is_digit(d[19]) && is_digit(d[20])
}

/// Relies on chrono's `Local::now` and `DateTime::format`: the local day and
/// time of day. Which day and time depends on the clock; the shape does not,
/// as chrono's format table gives it: `%a` and `%h` are always three letters,
/// `%d` is two digits, and `%R` is `%H:%M`, two digits each.
#[verifier::external_body]
fn local_date() -> (r: String)
    ensures
        date_shaped(r@),
{
    chrono::Local::now().format("%a, %d %h ⸱ 🕓 %R").to_string()
}

impl MetricSample {
    /// A sample of the given readings, stamped with the local date and time.
    pub fn stamped(plugged: Option<bool>, battery: Option<u64>, memory_used: Option<u64>, load: Option<u64>) -> (r: MetricSample)
        ensures
            r.plugged == plugged,
            r.battery == battery,
            r.memory_used == memory_used,
            r.load == load,
            date_shaped(r.date@),
    {
        MetricSample { plugged, battery, memory_used, load, date: local_date() }
    }
}

/// Each field in turn, followed by the separator where it is not empty.
pub open spec fn separated_all(parts: Seq<Seq<char>>) -> Seq<char>
    decreases parts.len(),
{
    if parts.len() == 0 {
        Seq::empty()
    } else {
        separated_text(parts[0]) + separated_all(parts.drop_first())
    }
}

/// The fields that are not empty, in order.
pub open spec fn shown(parts: Seq<Seq<char>>) -> Seq<Seq<char>>
    decreases parts.len(),
{
    if parts.len() == 0 {
        parts
    } else if parts[0].len() == 0 {
        shown(parts.drop_first())
    } else {
        seq![parts[0]] + shown(parts.drop_first())
    }
}

/// The parts with one separator between each two neighbours.
pub open spec fn joined(parts: Seq<Seq<char>>) -> Seq<char>
    decreases parts.len(),
{
    if parts.len() == 0 {
        Seq::empty()
    } else if parts.len() == 1 {
        parts[0]
    } else {
        parts[0] + separator() + joined(parts.drop_first())
    }
}

/// The four metric fields of a sample, in the order of the line.
pub open spec fn metric_fields(s: MetricSample) -> Seq<Seq<char>> {
    seq![plugged_text(s.plugged), battery_text(s.battery), memory_text(s.memory_used), load_text(s.load)]
}

proof fn lemma_separated_all_joined(parts: Seq<Seq<char>>, last: Seq<char>)
    ensures
        separated_all(parts) + last == joined(shown(parts).push(last)),
    decreases parts.len(),
{
    if parts.len() == 0 {
        assert(shown(parts).push(last) =~= seq![last]);
        assert(separated_all(parts) + last =~= last);
    } else {
        lemma_separated_all_joined(parts.drop_first(), last);
        let rest = shown(parts.drop_first()).push(last);
        if parts[0].len() == 0 {
            assert(separated_all(parts) + last =~= separated_all(parts.drop_first()) + last);
        } else {
            assert(shown(parts).push(last) =~= seq![parts[0]] + rest);
            assert((seq![parts[0]] + rest).drop_first() =~= rest);
            assert(separated_all(parts) + last =~= parts[0] + separator() + (separated_all(
                parts.drop_first(),
            ) + last));
        }
    }
}

proof fn lemma_shown_non_empty(parts: Seq<Seq<char>>)
    ensures
        forall|i: int| 0 <= i < shown(parts).len() ==> #[trigger] shown(parts)[i].len() > 0,
    decreases parts.len(),
{
    if parts.len() > 0 {
        lemma_shown_non_empty(parts.drop_first());
        if parts[0].len() > 0 {
            let rest = shown(parts.drop_first());
            assert forall|i: int| 0 <= i < shown(parts).len() implies #[trigger] shown(parts)[i].len()
                > 0 by {
                assert(shown(parts) == seq![parts[0]] + rest);
                if i > 0 {
                    assert(shown(parts)[i] == rest[i - 1]);
                } else {
                    assert(shown(parts)[i] == parts[0]);
                }
            }
        } else {
            assert(shown(parts) == shown(parts.drop_first()));
        }
    }
}

/// Formatting depends on the readings alone: two samples that hold the same
/// readings and the same date give the same line, however often it is made.
pub proof fn status_is_deterministic(a: MetricSample, b: MetricSample)
    requires
        a.plugged == b.plugged,
        a.battery == b.battery,
        a.memory_used == b.memory_used,
        a.load == b.load,
        a.date@ == b.date@,
    ensures
        status_text(a) == status_text(b),
{
}

/// The line is the fields that are not empty and then the date field, with
/// exactly one separator between each two neighbours: an empty field takes
/// its separator with it, and no separator follows another.
pub proof fn status_skips_empty_fields(s: MetricSample)
    ensures
        status_text(s) == joined(shown(metric_fields(s)).push(date_text(s.date@))),
        forall|i: int|
            0 <= i < shown(metric_fields(s)).push(date_text(s.date@)).len() ==> #[trigger] shown(
                metric_fields(s),
            ).push(date_text(s.date@))[i].len() > 0,
{
    let f = metric_fields(s);
    let d = date_text(s.date@);
    reveal_with_fuel(separated_all, 5);
    assert(f.drop_first().drop_first().drop_first().drop_first() =~= Seq::<Seq<char>>::empty());
    assert(status_prefix(s) =~= separated_all(f));
    lemma_separated_all_joined(f, d);
    lemma_shown_non_empty(f);
    reveal_strlit("📆 ");
    let all = shown(f).push(d);
    assert forall|i: int| 0 <= i < all.len() implies #[trigger] all[i].len() > 0 by {
        if i < shown(f).len() {
            assert(all[i] == shown(f)[i]);
        }
    }
}

/// The date field is always there and always last: the line ends with the
/// clock glyph and the date, and nothing follows them.
pub proof fn status_ends_with_date(s: MetricSample)
    ensures
        status_text(s) == status_prefix(s) + date_text(s.date@),
        status_text(s).subrange(
            status_text(s).len() - date_text(s.date@).len(),
            status_text(s).len() as int,
        ) == date_text(s.date@),
        status_text(s).subrange(
            status_text(s).len() - s.date@.len(),
            status_text(s).len() as int,
        ) == s.date@,
{
    let t = status_text(s);
    assert(t.subrange(t.len() - date_text(s.date@).len(), t.len() as int) =~= date_text(s.date@));
    assert(t.subrange(t.len() - s.date@.len(), t.len() as int) =~= s.date@);
}

} // verus!
