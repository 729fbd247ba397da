use gb2idb::digits::dec_string;
use gb2idb::sample::{format_batch_range, format_batches, format_sample, Sample};

fn sample(timestamp: u32, raw_intensity: u32, steps: u32, heart_rate: u32) -> Sample {
    Sample { timestamp, raw_intensity, steps, heart_rate }
}

#[test]
fn single_row_body() {
    let samples = vec![sample(1700000000, 5, 120, 70)];
    let bodies = format_batches(&samples, "alice");
    assert_eq!(bodies.len(), 1);
    assert_eq!(
        bodies[0],
        "raw_intensity,person=alice value=5 1700000000000000000\n\
         steps,person=alice value=120 1700000000000000000\n\
         heart_rate,person=alice value=70 1700000000000000000\n"
    );
}

#[test]
fn sample_yields_three_lines_in_order() {
    let s = sample(42, 1, 2, 3);
    let text = format_sample(&s, "bob");
    let lines: Vec<&str> = text.lines().collect();
    assert_eq!(lines.len(), 3);
    assert_eq!(lines[0], "raw_intensity,person=bob value=1 42000000000");
    assert_eq!(lines[1], "steps,person=bob value=2 42000000000");
    assert_eq!(lines[2], "heart_rate,person=bob value=3 42000000000");
    assert!(text.ends_with('\n'));
}

#[test]
fn formatting_is_idempotent() {
    let s = sample(1700000000, 5, 120, 70);
    let first = format_sample(&s, "alice");
    let second = format_sample(&s, "alice");
    assert_eq!(first.as_bytes(), second.as_bytes());
}

#[test]
fn extreme_values_render_in_full() {
    let s = sample(u32::MAX, u32::MAX, 0, 0);
    let text = format_sample(&s, "x");
    assert!(text.starts_with("raw_intensity,person=x value=4294967295 4294967295000000000\n"));
    assert!(text.contains("steps,person=x value=0 4294967295000000000\n"));
}

#[test]
fn decimal_rendering() {
    assert_eq!(dec_string(0), "0");
    assert_eq!(dec_string(7), "7");
    assert_eq!(dec_string(100), "100");
    assert_eq!(dec_string(4294967295), "4294967295");
    assert_eq!(dec_string(18446744073709551615), "18446744073709551615");
}

#[test]
fn no_rows_no_batches() {
    let samples: Vec<Sample> = Vec::new();
    let bodies = format_batches(&samples, "alice");
    assert_eq!(bodies.len(), 0);
}

#[test]
fn chunking_counts() {
    let mk = |n: u32| -> Vec<Sample> { (0..n).map(|i| sample(i, i, i, i)).collect() };

    let bodies = format_batches(&mk(250), "a");
    assert_eq!(bodies.len(), 3);
    assert_eq!(bodies[0].lines().count(), 300);
    assert_eq!(bodies[1].lines().count(), 300);
    assert_eq!(bodies[2].lines().count(), 150);

    let bodies = format_batches(&mk(100), "a");
    assert_eq!(bodies.len(), 1);
    assert_eq!(bodies[0].lines().count(), 300);

    let bodies = format_batches(&mk(101), "a");
    assert_eq!(bodies.len(), 2);
    assert_eq!(bodies[0].lines().count(), 300);
    assert_eq!(bodies[1].lines().count(), 3);

    let bodies = format_batches(&mk(99), "a");
    assert_eq!(bodies.len(), 1);
    assert_eq!(bodies[0].lines().count(), 297);
}

#[test]
fn batches_concatenate_in_row_order() {
    let samples: Vec<Sample> = (0..205).map(|i| sample(i, i, i, i)).collect();
    let bodies = format_batches(&samples, "n");
    assert_eq!(bodies.len(), 3);
    let joined: String = bodies.concat();
    let whole = format_batch_range(&samples, 0, samples.len(), "n");
    assert_eq!(joined, whole);
    assert!(bodies[2].starts_with("raw_intensity,person=n value=200 200000000000\n"));
}
