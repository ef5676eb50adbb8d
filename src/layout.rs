//! What the status line looks like character by character, for a sample
//! whose date has the shape that the clock gives.
use vstd::prelude::*;
use crate::metrics::{
    battery_text, date_shaped, date_text, is_digit, is_letter, load_text, memory_text,
    plugged_text, separated_text, separator, status_prefix, status_text, MetricSample,
};
use crate::text::{decimal, digit_text, hundredths_text, tenths_text};

verus! {

/// `t` holds no `c`.
pub open spec fn avoids(t: Seq<char>, c: char) -> bool {
    forall|i: int| 0 <= i < t.len() ==> #[trigger] t[i] != c
}

/// `t` is not empty, neither begins nor ends with a space, and holds no two
/// spaces side by side.
pub open spec fn spaced(t: Seq<char>) -> bool {
    &&& t.len() > 0
    &&& t[0] != ' '
    &&& t[t.len() - 1] != ' '
    &&& forall|i: int| 0 <= i < t.len() - 1 && #[trigger] t[i] == ' ' ==> t[i + 1] != ' '
}

proof fn lemma_avoids_add(a: Seq<char>, b: Seq<char>, c: char)
    requires
        avoids(a, c),
        avoids(b, c),
    ensures
        avoids(a + b, c),
{
    assert forall|i: int| 0 <= i < (a + b).len() implies #[trigger] (a + b)[i] != c by {
        if i < a.len() {
            assert((a + b)[i] == a[i]);
        } else {
            assert((a + b)[i] == b[i - a.len()]);
        }
    }
}

proof fn lemma_digit_avoids(d: nat, c: char)
    requires
        !is_digit(c),
    ensures
        avoids(digit_text(d), c),
        digit_text(d).len() == 1,
{
    reveal_strlit("0");
    reveal_strlit("1");
    reveal_strlit("2");
    reveal_strlit("3");
    reveal_strlit("4");
    reveal_strlit("5");
    reveal_strlit("6");
    reveal_strlit("7");
    reveal_strlit("8");
    reveal_strlit("9");
}

proof fn lemma_decimal_avoids(n: nat, c: char)
    requires
        !is_digit(c),
    ensures
        avoids(decimal(n), c),
        decimal(n).len() > 0,
    decreases n,
{
    lemma_digit_avoids(n % 10, c);
    if n >= 10 {
        lemma_decimal_avoids(n / 10, c);
        lemma_avoids_add(decimal(n / 10), digit_text(n % 10), c);
    }
}

proof fn lemma_numeral_avoids(n: nat, c: char)
    requires
        !is_digit(c),
        c != '.',
    ensures
        avoids(tenths_text(n), c),
        tenths_text(n).len() > 0,
        avoids(hundredths_text(n), c),
        hundredths_text(n).len() > 0,
{
    reveal_strlit(".");
    lemma_decimal_avoids(n / 10, c);
    lemma_decimal_avoids(n / 100, c);
    lemma_digit_avoids(n % 10, c);
    lemma_digit_avoids((n / 10) % 10, c);
    lemma_avoids_add(decimal(n / 10), "."@, c);
    lemma_avoids_add(decimal(n / 10) + "."@, digit_text(n % 10), c);
    lemma_avoids_add(decimal(n / 100), "."@, c);
    lemma_avoids_add(decimal(n / 100) + "."@, digit_text((n / 10) % 10), c);
    lemma_avoids_add(decimal(n / 100) + "."@ + digit_text((n / 10) % 10), digit_text(n % 10), c);
}

/// A glyph, a space and a body without spaces.
proof fn lemma_glyph_field(g: char, body: Seq<char>)
    requires
        g != ' ',
        body.len() > 0,
        avoids(body, ' '),
    ensures
        spaced(seq![g, ' '] + body),
{
    let t = seq![g, ' '] + body;
    assert(t[t.len() - 1] == body[body.len() - 1]);
    assert forall|i: int| 0 <= i < t.len() - 1 && #[trigger] t[i] == ' ' implies t[i + 1] != ' ' by {
        assert(t[i + 1] == body[i - 1]);
    }
}

/// Each field that is not empty is spaced and holds no calendar glyph; all
/// but the battery field hold no battery glyph.
proof fn lemma_fields(s: MetricSample)
    ensures
        spaced(plugged_text(s.plugged)),
        avoids(plugged_text(s.plugged), '📆'),
        avoids(plugged_text(s.plugged), '🔋'),
        battery_text(s.battery).len() == 0 || spaced(battery_text(s.battery)),
        avoids(battery_text(s.battery), '📆'),
        spaced(memory_text(s.memory_used)),
        avoids(memory_text(s.memory_used), '📆'),
        avoids(memory_text(s.memory_used), '🔋'),
        spaced(load_text(s.load)),
        avoids(load_text(s.load), '📆'),
        avoids(load_text(s.load), '🔋'),
{
    reveal_strlit("🔌 ✓");
    reveal_strlit("🔌 ✘");
    reveal_strlit("🔌");
    reveal_strlit("🔋 ");
    reveal_strlit("%");
    reveal_strlit("▯ ");
    reveal_strlit("▯ _");
    reveal_strlit("⚙ ");
    reveal_strlit("⚙ _");
    assert(plugged_text(s.plugged)[0] == '🔌');
    match s.battery {
        Some(t) => {
            let body = tenths_text(t as nat) + "%"@;
            lemma_numeral_avoids(t as nat, ' ');
            lemma_numeral_avoids(t as nat, '📆');
            lemma_avoids_add(tenths_text(t as nat), "%"@, ' ');
            lemma_avoids_add(tenths_text(t as nat), "%"@, '📆');
            assert(battery_text(s.battery) =~= seq!['🔋', ' '] + body);
            lemma_glyph_field('🔋', body);
            lemma_avoids_add(seq!['🔋', ' '], body, '📆');
        },
        None => {},
    }
    match s.memory_used {
        Some(n) => {
            lemma_decimal_avoids(n as nat, ' ');
            lemma_decimal_avoids(n as nat, '📆');
            lemma_decimal_avoids(n as nat, '🔋');
            assert(memory_text(s.memory_used) =~= seq!['▯', ' '] + decimal(n as nat));
            lemma_glyph_field('▯', decimal(n as nat));
            lemma_avoids_add(seq!['▯', ' '], decimal(n as nat), '📆');
            lemma_avoids_add(seq!['▯', ' '], decimal(n as nat), '🔋');
        },
        None => {
            assert(memory_text(s.memory_used) =~= seq!['▯', ' ', '_']);
        },
    }
    match s.load {
        Some(h) => {
            lemma_numeral_avoids(h as nat, ' ');
            lemma_numeral_avoids(h as nat, '📆');
            lemma_numeral_avoids(h as nat, '🔋');
            assert(load_text(s.load) =~= seq!['⚙', ' '] + hundredths_text(h as nat));
            lemma_glyph_field('⚙', hundredths_text(h as nat));
            lemma_avoids_add(seq!['⚙', ' '], hundredths_text(h as nat), '📆');
            lemma_avoids_add(seq!['⚙', ' '], hundredths_text(h as nat), '🔋');
        },
        None => {
            assert(load_text(s.load) =~= seq!['⚙', ' ', '_']);
        },
    }
}

/// The date field is spaced, ends in a digit and holds its calendar glyph
/// only at the front, and no battery glyph.
proof fn lemma_date_field(d: Seq<char>)
    requires
        date_shaped(d),
    ensures
        spaced(date_text(d)),
        date_text(d)[0] == '📆',
        is_digit(date_text(d)[date_text(d).len() - 1]),
        avoids(d, '📆'),
        avoids(date_text(d), '🔋'),
        date_text(d).len() == 23,
{
    reveal_strlit("📆 ");
    let t = date_text(d);
    assert(t =~= seq!['📆', ' '] + d);
    assert forall|i: int| 0 <= i < d.len() implies #[trigger] d[i] != '📆' && d[i] != '🔋' && (d[i]
        == ' ' <==> (i == 4 || i == 7 || i == 11 || i == 13 || i == 15)) by {
        assert(i == 0 || i == 1 || i == 2 || i == 3 || i == 4 || i == 5 || i == 6 || i == 7 || i == 8
            || i == 9 || i == 10 || i == 11 || i == 12 || i == 13 || i == 14 || i == 15 || i == 16
            || i == 17 || i == 18 || i == 19 || i == 20);
    }
    assert forall|i: int| 0 <= i < t.len() - 1 && #[trigger] t[i] == ' ' implies t[i + 1] != ' ' by {
        assert(t[i + 1] == d[i - 1]);
        if i >= 2 {
            assert(t[i] == d[i - 2]);
        }
    }
    assert(t[t.len() - 1] == d[20]);
    assert forall|i: int| 0 <= i < t.len() implies #[trigger] t[i] != '🔋' by {
        if i >= 2 {
            assert(t[i] == d[i - 2]);
        }
    }
}

/// A field with its separator, then a spaced rest, is spaced.
proof fn lemma_separated_then(a: Seq<char>, rest: Seq<char>)
    requires
        a.len() == 0 || spaced(a),
        spaced(rest),
    ensures
        spaced(separated_text(a) + rest),
{
    if a.len() == 0 {
        assert(separated_text(a) + rest =~= rest);
    } else {
        reveal_strlit(" ⸱ ");
        let t = separated_text(a) + rest;
        let n = a.len() as int;
        assert(t[0] == a[0]);
        assert(t[t.len() - 1] == rest[rest.len() - 1]);
        assert forall|i: int| 0 <= i < t.len() - 1 && #[trigger] t[i] == ' ' implies t[i + 1]
            != ' ' by {
            if i < n - 1 {
                assert(t[i] == a[i] && t[i + 1] == a[i + 1]);
            } else if i == n - 1 {
                assert(t[i] == a[n - 1]);
            } else if i == n {
                assert(t[i + 1] == '⸱');
            } else if i == n + 1 {
                assert(t[i] == '⸱');
            } else if i == n + 2 {
                assert(t[i + 1] == rest[0]);
            } else {
                assert(t[i] == rest[i - n - 3] && t[i + 1] == rest[i - n - 2]);
            }
        }
    }
}

proof fn lemma_status_spaced(s: MetricSample)
    requires
        date_shaped(s.date@),
    ensures
        spaced(status_text(s)),
{
    lemma_fields(s);
    lemma_date_field(s.date@);
    let r4 = date_text(s.date@);
    let r3 = separated_text(load_text(s.load)) + r4;
    let r2 = separated_text(memory_text(s.memory_used)) + r3;
    let r1 = separated_text(battery_text(s.battery)) + r2;
    let r0 = separated_text(plugged_text(s.plugged)) + r1;
    lemma_separated_then(load_text(s.load), r4);
    lemma_separated_then(memory_text(s.memory_used), r3);
    lemma_separated_then(battery_text(s.battery), r2);
    lemma_separated_then(plugged_text(s.plugged), r1);
    assert(status_text(s) =~= r0);
}

proof fn lemma_separated_avoids(a: Seq<char>, c: char)
    requires
        avoids(a, c),
        c != ' ',
        c != '⸱',
    ensures
        avoids(separated_text(a), c),
{
    reveal_strlit(" ⸱ ");
    if a.len() > 0 {
        lemma_avoids_add(a, separator(), c);
    }
}

/// No separator stands directly beside another, and the line does not open
/// with one: a missing field leaves no trace between its neighbours.
pub proof fn status_has_no_doubled_separator(s: MetricSample)
    requires
        date_shaped(s.date@),
    ensures
        forall|i: int|
            0 <= i && i + 6 <= status_text(s).len() ==> #[trigger] status_text(s).subrange(i, i + 6)
                != " ⸱  ⸱ "@,
        status_text(s).subrange(0, 3) != separator(),
        status_text(s)[0] == '🔌',
{
    reveal_strlit(" ⸱  ⸱ ");
    reveal_strlit(" ⸱ ");
    reveal_strlit("🔌 ✓");
    reveal_strlit("🔌 ✘");
    reveal_strlit("🔌");
    lemma_status_spaced(s);
    let t = status_text(s);
    assert forall|i: int| 0 <= i && i + 6 <= t.len() implies #[trigger] t.subrange(i, i + 6)
        != " ⸱  ⸱ "@ by {
        if t.subrange(i, i + 6) == " ⸱  ⸱ "@ {
            assert(t[i + 2] == t.subrange(i, i + 6)[2]);
            assert(t[i + 3] == t.subrange(i, i + 6)[3]);
        }
    }
    assert(t[0] == plugged_text(s.plugged)[0]);
    assert(t.subrange(0, 3)[0] == t[0]);
}

/// Nothing follows the date field: the line ends in the minute's last
/// digit, never in a space or a separator, and the date field is the last
/// 23 characters, the calendar glyph, a space and the date.
pub proof fn status_ends_in_minutes(s: MetricSample)
    requires
        date_shaped(s.date@),
    ensures
        is_digit(status_text(s)[status_text(s).len() - 1]),
        status_text(s).len() >= 23,
        status_text(s).subrange(status_text(s).len() - 23, status_text(s).len() as int)
            == date_text(s.date@),
        status_text(s).subrange(status_text(s).len() - 3, status_text(s).len() as int)
            != separator(),
{
    reveal_strlit(" ⸱ ");
    lemma_date_field(s.date@);
    let t = status_text(s);
    let d = date_text(s.date@);
    assert(t[t.len() - 1] == d[d.len() - 1]);
    assert(t.subrange(t.len() - 23, t.len() as int) =~= d);
    assert(t.subrange(t.len() - 3, t.len() as int)[2] == t[t.len() - 1]);
}

/// The calendar glyph stands exactly once in the line, at the start of the
/// date field.
pub proof fn calendar_glyph_once(s: MetricSample)
    requires
        date_shaped(s.date@),
    ensures
        forall|i: int|
            0 <= i < status_text(s).len() ==> (#[trigger] status_text(s)[i] == '📆' <==> i
                == status_prefix(s).len()),
{
    lemma_fields(s);
    lemma_date_field(s.date@);
    lemma_separated_avoids(plugged_text(s.plugged), '📆');
    lemma_separated_avoids(battery_text(s.battery), '📆');
    lemma_separated_avoids(memory_text(s.memory_used), '📆');
    lemma_separated_avoids(load_text(s.load), '📆');
    let a = separated_text(plugged_text(s.plugged));
    let b = separated_text(battery_text(s.battery));
    let c = separated_text(memory_text(s.memory_used));
    let e = separated_text(load_text(s.load));
    lemma_avoids_add(a, b, '📆');
    lemma_avoids_add(a + b, c, '📆');
    lemma_avoids_add(a + b + c, e, '📆');
    let p = status_prefix(s);
    let d = date_text(s.date@);
    let t = status_text(s);
    reveal_strlit("📆 ");
    assert(d =~= seq!['📆', ' '] + s.date@);
    assert(avoids(p, '📆'));
    assert(t == p + d);
    assert forall|i: int| 0 <= i < t.len() implies (#[trigger] t[i] == '📆' <==> i == p.len()) by {
        if i < p.len() {
            assert(t[i] == p[i]);
        } else {
            assert(t[i] == d[i - p.len()]);
            if i > p.len() + 1 {
                assert(d[i - p.len()] == s.date@[i - p.len() - 2]);
            }
        }
    }
}

/// Without a battery reading the line holds no battery glyph: the battery
/// field is gone with its separator.
pub proof fn no_battery_glyph_without_reading(s: MetricSample)
    requires
        s.battery is None,
        date_shaped(s.date@),
    ensures
        forall|i: int| 0 <= i < status_text(s).len() ==> #[trigger] status_text(s)[i] != '🔋',
        status_text(s) == plugged_text(s.plugged) + separator() + memory_text(s.memory_used)
            + separator() + load_text(s.load) + separator() + date_text(s.date@),
{
    lemma_fields(s);
    lemma_date_field(s.date@);
    lemma_separated_avoids(plugged_text(s.plugged), '🔋');
    lemma_separated_avoids(memory_text(s.memory_used), '🔋');
    lemma_separated_avoids(load_text(s.load), '🔋');
    let a = separated_text(plugged_text(s.plugged));
    let c = separated_text(memory_text(s.memory_used));
    let e = separated_text(load_text(s.load));
    assert(battery_text(s.battery).len() == 0);
    assert(status_text(s) =~= a + c + e + date_text(s.date@));
    lemma_avoids_add(a, c, '🔋');
    lemma_avoids_add(a + c, e, '🔋');
    lemma_avoids_add(a + c + e, date_text(s.date@), '🔋');
    assert(status_text(s) =~= plugged_text(s.plugged) + separator() + memory_text(s.memory_used)
        + separator() + load_text(s.load) + separator() + date_text(s.date@));
}

} // verus!
