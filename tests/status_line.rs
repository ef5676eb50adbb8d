use dwm_status::metrics::{battery_field, load_field, memory_field, plugged_field};
use dwm_status::text::{decimal_string, hundredths_string, tenths_string};
use dwm_status::{separated, status, used_memory, MetricSample};

fn sample(
    plugged: Option<bool>,
    battery: Option<u64>,
    memory_used: Option<u64>,
    load: Option<u64>,
    date: &str,
) -> MetricSample {
    MetricSample { plugged, battery, memory_used, load, date: date.to_string() }
}

#[test]
fn full_sample_renders_every_field() {
    let s = sample(Some(true), Some(873), Some(1234), Some(42), "Mon, 01 Jan ⸱ 🕓 00:00");
    assert_eq!(status(&s), "🔌 ✓ ⸱ 🔋 87.3% ⸱ ▯ 1234 ⸱ ⚙ 0.42 ⸱ 📆 Mon, 01 Jan ⸱ 🕓 00:00");
}

#[test]
fn failed_queries_render_placeholders() {
    let s = sample(None, None, None, None, "Tue, 02 Feb ⸱ 🕓 13:45");
    assert_eq!(status(&s), "🔌 ⸱ ▯ _ ⸱ ⚙ _ ⸱ 📆 Tue, 02 Feb ⸱ 🕓 13:45");
}

#[test]
fn formatting_twice_gives_the_same_line() {
    let s = sample(Some(false), Some(5), Some(0), Some(199), "Wed, 03 Mar ⸱ 🕓 08:05");
    assert_eq!(status(&s), status(&s));
}

#[test]
fn empty_battery_field_drops_its_separator() {
    let s = sample(Some(false), None, Some(7), Some(100), "d");
    let line = status(&s);
    assert_eq!(line, "🔌 ✘ ⸱ ▯ 7 ⸱ ⚙ 1.00 ⸱ 📆 d");
    assert!(!line.contains(" ⸱  ⸱ "));
}

#[test]
fn date_is_last_without_trailing_separator() {
    let s = sample(Some(true), Some(1000), None, None, "Sun, 31 Dec ⸱ 🕓 23:59");
    let line = status(&s);
    assert!(line.ends_with("📆 Sun, 31 Dec ⸱ 🕓 23:59"));
    assert!(!line.ends_with(" ⸱ "));
    assert_eq!(line, "🔌 ✓ ⸱ 🔋 100.0% ⸱ ▯ _ ⸱ ⚙ _ ⸱ 📆 Sun, 31 Dec ⸱ 🕓 23:59");
}

#[test]
fn stamped_sample_carries_a_local_date() {
    let s = MetricSample::stamped(Some(true), None, Some(1), Some(2));
    assert_eq!(s.plugged, Some(true));
    assert_eq!(s.memory_used, Some(1));
    let d: Vec<char> = s.date.chars().collect();
    assert_eq!(d.len(), 21);
    assert!(d[0..3].iter().all(|c| c.is_ascii_alphabetic()));
    assert_eq!(&d[3..5], &[',', ' ']);
    assert!(d[5..7].iter().all(|c| c.is_ascii_digit()));
    assert_eq!(d[7], ' ');
    assert!(d[8..11].iter().all(|c| c.is_ascii_alphabetic()));
    assert_eq!(d[11..16].iter().collect::<String>(), " ⸱ 🕓 ");
    assert!(d[16].is_ascii_digit() && d[17].is_ascii_digit());
    assert_eq!(d[18], ':');
    assert!(d[19].is_ascii_digit() && d[20].is_ascii_digit());
    let line = status(&s);
    assert!(line.ends_with(&s.date));
    assert!(line.starts_with("🔌 ✓ ⸱ ▯ 1 ⸱ ⚙ 0.02 ⸱ 📆 "));
    assert!(!line.contains(" ⸱  ⸱ "));
    assert!(!line.contains("🔋"));
    assert_eq!(line.matches("📆").count(), 1);
    assert!(line.chars().last().unwrap().is_ascii_digit());
}

#[test]
fn line_shape_with_every_query_failing() {
    let s = sample(None, None, None, None, "Fri, 09 Aug ⸱ 🕓 07:30");
    let line = status(&s);
    assert!(!line.starts_with(" ⸱ "));
    assert!(!line.contains(" ⸱  ⸱ "));
    assert!(!line.contains("🔋"));
    assert_eq!(line.matches("📆").count(), 1);
    assert!(!line.ends_with(' ') && !line.ends_with('⸱'));
}

#[test]
fn field_texts() {
    assert_eq!(plugged_field(Some(true)), "🔌 ✓");
    assert_eq!(plugged_field(Some(false)), "🔌 ✘");
    assert_eq!(plugged_field(None), "🔌");
    assert_eq!(battery_field(Some(873)), "🔋 87.3%");
    assert_eq!(battery_field(Some(0)), "🔋 0.0%");
    assert_eq!(battery_field(None), "");
    assert_eq!(memory_field(Some(1234)), "▯ 1234");
    assert_eq!(memory_field(None), "▯ _");
    assert_eq!(load_field(Some(42)), "⚙ 0.42");
    assert_eq!(load_field(Some(1205)), "⚙ 12.05");
    assert_eq!(load_field(None), "⚙ _");
}

#[test]
fn separated_appends_only_to_non_empty_text() {
    assert_eq!(separated(String::new()), "");
    assert_eq!(separated("🔌".to_string()), "🔌 ⸱ ");
}

#[test]
fn decimal_texts() {
    assert_eq!(decimal_string(0), "0");
    assert_eq!(decimal_string(7), "7");
    assert_eq!(decimal_string(1234567890), "1234567890");
    assert_eq!(decimal_string(u64::MAX), "18446744073709551615");
    assert_eq!(tenths_string(873), "87.3");
    assert_eq!(tenths_string(5), "0.5");
    assert_eq!(hundredths_string(42), "0.42");
    assert_eq!(hundredths_string(5), "0.05");
    assert_eq!(hundredths_string(300), "3.00");
}

#[test]
fn memory_in_use() {
    assert_eq!(used_memory(1000, 100, 50, 25), Some(825));
    assert_eq!(used_memory(1000, 900, 50, 50), Some(0));
    assert_eq!(used_memory(1000, 900, 50, 51), None);
    assert_eq!(used_memory(10, 11, 0, 0), None);
    assert_eq!(used_memory(u64::MAX, 0, 0, 0), Some(u64::MAX));
}
