//! Rendering of samples into the textual line protocol, and grouping of a
//! row sequence into fixed-size batches.
//!
//! Each sample becomes three metric lines, in a fixed order; a batch is the
//! concatenation of the lines of up to [`BATCH_SIZE`] consecutive samples.

use vstd::prelude::*;
use vstd::string::StringExecFns;
use crate::digits::{append_dec, dec_spec, is_digit_char, lemma_dec_digits};

verus! {

/// Samples per batch: each request body carries at most this many rows.
pub const BATCH_SIZE: usize = 100;

/// One row of the source table: a timestamp in seconds and three measurements.
#[derive(Clone, Copy, PartialEq, Eq, Structural, Debug)]
pub struct Sample {
    pub timestamp: u32,
    pub raw_intensity: u32,
    pub steps: u32,
    pub heart_rate: u32,
}

/// One metric line: `<measurement>,person=<name> value=<value> <ts>000000000\n`.
/// The nine trailing zeros are a textual pad to nanosecond resolution, not an
/// arithmetic conversion.
pub open spec fn line_spec(measurement: Seq<char>, name: Seq<char>, value: nat, ts: nat) -> Seq<
    char,
> {
    measurement + ",person="@ + name + " value="@ + dec_spec(value) + " "@ + dec_spec(ts)
        + "000000000\n"@
}

/// The three lines of one sample, in the fixed order
/// intensity, then steps, then heart rate.
pub open spec fn sample_lines_spec(s: Sample, name: Seq<char>) -> Seq<char> {
    line_spec("raw_intensity"@, name, s.raw_intensity as nat, s.timestamp as nat) + line_spec(
        "steps"@,
        name,
        s.steps as nat,
        s.timestamp as nat,
    ) + line_spec("heart_rate"@, name, s.heart_rate as nat, s.timestamp as nat)
}

/// The body of one batch: the lines of the given samples, in order.
pub open spec fn batch_spec(samples: Seq<Sample>, name: Seq<char>) -> Seq<char>
    decreases samples.len(),
{
    if samples.len() == 0 {
        Seq::empty()
    } else {
        sample_lines_spec(samples[0], name) + batch_spec(samples.drop_first(), name)
    }
}

fn append_line(buf: &mut String, measurement: &str, name: &str, value: u32, ts: u32)
    ensures
        final(buf)@ == old(buf)@ + line_spec(measurement@, name@, value as nat, ts as nat),
{
    buf.append(measurement);
    buf.append(",person=");
    buf.append(name);
    buf.append(" value=");
    append_dec(buf, value as u64);
    buf.append(" ");
    append_dec(buf, ts as u64);
    buf.append("000000000\n");
    proof {
        assert(buf@ =~= old(buf)@ + line_spec(measurement@, name@, value as nat, ts as nat));
    }
}

/// Appends the three lines of `s` to `buf`.
pub fn append_sample(buf: &mut String, s: &Sample, name: &str)
    ensures
        final(buf)@ == old(buf)@ + sample_lines_spec(*s, name@),
{
    append_line(buf, "raw_intensity", name, s.raw_intensity, s.timestamp);
    append_line(buf, "steps", name, s.steps, s.timestamp);
    append_line(buf, "heart_rate", name, s.heart_rate, s.timestamp);
    proof {
        assert(buf@ =~= old(buf)@ + sample_lines_spec(*s, name@));
    }
}

/// The three lines of one sample as a fresh string. The result is a function
/// of the sample and the name alone, so repeated calls on the same input
/// render identical text.
pub fn format_sample(s: &Sample, name: &str) -> (r: String)
    ensures
        r@ == sample_lines_spec(*s, name@),
{
    let mut buf = String::new();
    append_sample(&mut buf, s, name);
    proof {
        assert(buf@ =~= sample_lines_spec(*s, name@));
    }
    buf
}

proof fn lemma_batch_spec_snoc(samples: Seq<Sample>, name: Seq<char>)
    requires
        samples.len() > 0,
    ensures
        batch_spec(samples, name) == batch_spec(samples.drop_last(), name) + sample_lines_spec(
            samples.last(),
            name,
        ),
    decreases samples.len(),
{
    if samples.len() == 1 {
        assert(samples.drop_first().len() == 0);
        assert(samples.drop_last().len() == 0);
        assert(batch_spec(samples.drop_first(), name) =~= Seq::<char>::empty());
        assert(batch_spec(samples.drop_last(), name) =~= Seq::<char>::empty());
        assert(samples.last() == samples[0]);
        assert(batch_spec(samples, name) =~= batch_spec(samples.drop_last(), name)
            + sample_lines_spec(samples.last(), name));
    } else {
        let rest = samples.drop_first();
        lemma_batch_spec_snoc(rest, name);
        assert(samples.drop_last().drop_first() =~= rest.drop_last());
        assert(samples.drop_last()[0] == samples[0]);
        assert(samples.drop_last().len() > 0);
        assert(batch_spec(samples, name) =~= batch_spec(samples.drop_last(), name)
            + sample_lines_spec(samples.last(), name));
    }
}

/// The body for the samples at indices `start..end`.
pub fn format_batch_range(samples: &Vec<Sample>, start: usize, end: usize, name: &str) -> (r:
    String)
    requires
        start <= end <= samples.len(),
    ensures
        r@ == batch_spec(samples@.subrange(start as int, end as int), name@),
{
    let mut buf = String::new();
    let mut i = start;
    proof {
        assert(buf@ =~= batch_spec(samples@.subrange(start as int, start as int), name@));
    }
    while i < end
        invariant
            start <= i <= end <= samples.len(),
            buf@ == batch_spec(samples@.subrange(start as int, i as int), name@),
        decreases end - i,
    {
        let s = samples[i];
        append_sample(&mut buf, &s, name);
        proof {
            let pre = samples@.subrange(start as int, i as int);
            let post = samples@.subrange(start as int, i as int + 1);
            lemma_batch_spec_snoc(post, name@);
            assert(post.drop_last() =~= pre);
            assert(post.last() == samples@[i as int]);
        }
        i = i + 1;
    }
    buf
}

/// Where batch `i` begins in the row sequence.
pub open spec fn batch_lo(i: int) -> int {
    100 * i
}

/// Where batch `i` ends: one past its last row.
pub open spec fn batch_hi(n: nat, i: int) -> int {
    if 100 * i + 100 <= n {
        100 * i + 100
    } else {
        n as int
    }
}

/// How many batches `n` rows make: the least number of chunks of 100 that
/// cover them all.
pub open spec fn batch_count(n: nat) -> nat {
    ((n + 99) / 100) as nat
}

/// Groups the rows into chunks of [`BATCH_SIZE`] (the final chunk may be
/// shorter) and renders each chunk into one request body. For `n` rows there
/// are exactly `ceil(n / 100)` bodies; body `i` carries the rows
/// `100 * i .. min(100 * i + 100, n)`.
pub fn format_batches(samples: &Vec<Sample>, name: &str) -> (r: Vec<String>)
    ensures
        r@.len() == batch_count(samples@.len()),
        forall|i: int|
            0 <= i < r@.len() ==> r@[i]@ == batch_spec(
                samples@.subrange(batch_lo(i), batch_hi(samples@.len(), i)),
                name@,
            ),
{
    let n = samples.len();
    let mut out: Vec<String> = Vec::new();
    let mut start: usize = 0;
    while start < n
        invariant
            start <= n == samples@.len(),
            start < n ==> start == 100 * out@.len(),
            start <= 100 * out@.len() <= start + 99,
            forall|i: int|
                0 <= i < out@.len() ==> out@[i]@ == batch_spec(
                    samples@.subrange(batch_lo(i), batch_hi(samples@.len(), i)),
                    name@,
                ),
        decreases n - start,
    {
        let end = if n - start >= BATCH_SIZE {
            start + BATCH_SIZE
        } else {
            n
        };
        let body = format_batch_range(samples, start, end, name);
        proof {
            let k = out@.len() as int;
            assert(batch_lo(k) == start as int);
            assert(batch_hi(samples@.len(), k) == end as int);
        }
        out.push(body);
        start = end;
    }
    proof {
        let ln = out@.len() as int;
        if n == 0 {
            assert(batch_count(samples@.len()) == 0);
        } else {
            assert(n <= 100 * ln <= n + 99);
            assert(ln == (n + 99) / 100) by (nonlinear_arith)
                requires
                    n as int <= 100 * ln <= n as int + 99,
                    0 < n as int,
            ;
        }
    }
    out
}

/// The rows behind each batch: every batch except possibly the last covers
/// exactly 100 rows, and the last covers the remainder, never empty and
/// never more than 100, ending at the final row.
pub proof fn lemma_batch_sizes(n: nat, i: int)
    requires
        0 <= i < batch_count(n),
    ensures
        i < batch_count(n) - 1 ==> batch_hi(n, i) - batch_lo(i) == 100,
        i == batch_count(n) - 1 ==> batch_hi(n, i) == n && 0 < batch_hi(n, i) - batch_lo(i)
            <= 100,
{
    let c = batch_count(n) as int;
    assert(100 * c <= n + 99 && n <= 100 * c) by (nonlinear_arith)
        requires
            c == (n + 99) / 100,
            n >= 0,
    ;
    if i < c - 1 {
        assert(100 * (i + 1) <= 100 * (c - 1)) by (nonlinear_arith)
            requires
                i + 1 <= c - 1,
        ;
        assert(100 * i + 100 <= n);
    } else {
        assert(100 * i == 100 * c - 100) by (nonlinear_arith)
            requires
                i == c - 1,
        ;
        assert(100 * i < n);
        assert(n <= 100 * i + 100);
    }
}

/// No character of `s` is a newline.
pub open spec fn no_newline(s: Seq<char>) -> bool {
    forall|i: int| 0 <= i < s.len() ==> s[i] != '\n'
}

/// `s` reads as a single text line: non-empty, ends with a newline, and has
/// no newline before the end.
pub open spec fn is_line(s: Seq<char>) -> bool {
    &&& s.len() > 0
    &&& s.last() == '\n'
    &&& forall|i: int| 0 <= i < s.len() - 1 ==> s[i] != '\n'
}

proof fn lemma_no_newline_plus(a: Seq<char>, b: Seq<char>)
    requires
        no_newline(a),
        no_newline(b),
    ensures
        no_newline(a + b),
{
    assert forall|i: int| 0 <= i < (a + b).len() implies (a + b)[i] != '\n' by {
        if i < a.len() {
            assert((a + b)[i] == a[i]);
        } else {
            assert((a + b)[i] == b[i - a.len()]);
        }
    }
}

proof fn lemma_dec_no_newline(n: nat)
    ensures
        no_newline(dec_spec(n)),
{
    lemma_dec_digits(n);
    assert forall|i: int| 0 <= i < dec_spec(n).len() implies dec_spec(n)[i] != '\n' by {
        assert(is_digit_char(dec_spec(n)[i]));
    }
}

/// One metric line is a well-formed single line whenever the measurement and
/// the name contain no newline: everything before its final character is
/// newline-free, and it ends with exactly one newline.
pub proof fn lemma_line_is_line(measurement: Seq<char>, name: Seq<char>, value: nat, ts: nat)
    requires
        no_newline(measurement),
        no_newline(name),
    ensures
        is_line(line_spec(measurement, name, value, ts)),
{
    reveal_strlit(",person=");
    reveal_strlit(" value=");
    reveal_strlit(" ");
    reveal_strlit("000000000\n");
    let tail = "000000000\n"@;
    assert(tail.len() == 10);
    assert(no_newline(",person="@)) by {
        assert forall|i: int| 0 <= i < ",person="@.len() implies ",person="@[i] != '\n' by {}
    }
    assert(no_newline(" value="@)) by {
        assert forall|i: int| 0 <= i < " value="@.len() implies " value="@[i] != '\n' by {}
    }
    assert(no_newline(" "@)) by {
        assert forall|i: int| 0 <= i < " "@.len() implies " "@[i] != '\n' by {}
    }
    lemma_dec_no_newline(value);
    lemma_dec_no_newline(ts);
    let head = measurement + ",person="@ + name + " value="@ + dec_spec(value) + " "@ + dec_spec(
        ts,
    );
    lemma_no_newline_plus(measurement, ",person="@);
    lemma_no_newline_plus(measurement + ",person="@, name);
    lemma_no_newline_plus(measurement + ",person="@ + name, " value="@);
    lemma_no_newline_plus(measurement + ",person="@ + name + " value="@, dec_spec(value));
    lemma_no_newline_plus(
        measurement + ",person="@ + name + " value="@ + dec_spec(value),
        " "@,
    );
    lemma_no_newline_plus(
        measurement + ",person="@ + name + " value="@ + dec_spec(value) + " "@,
        dec_spec(ts),
    );
    let whole = line_spec(measurement, name, value, ts);
    assert(whole =~= head + tail);
    assert(whole.len() == head.len() + 10);
    assert(whole.last() == tail[9]);
    assert forall|i: int| 0 <= i < whole.len() - 1 implies whole[i] != '\n' by {
        if i < head.len() {
            assert(whole[i] == head[i]);
        } else {
            assert(whole[i] == tail[i - head.len()]);
            assert(0 <= i - head.len() < 9);
        }
    }
}

/// Each sample renders to exactly three lines, in the fixed order intensity,
/// steps, heart rate, provided the display name contains no newline.
pub proof fn lemma_sample_three_lines(s: Sample, name: Seq<char>)
    requires
        no_newline(name),
    ensures
        ({
            let l1 = line_spec("raw_intensity"@, name, s.raw_intensity as nat, s.timestamp as nat);
            let l2 = line_spec("steps"@, name, s.steps as nat, s.timestamp as nat);
            let l3 = line_spec("heart_rate"@, name, s.heart_rate as nat, s.timestamp as nat);
            &&& sample_lines_spec(s, name) == l1 + l2 + l3
            &&& is_line(l1)
            &&& is_line(l2)
            &&& is_line(l3)
        }),
{
    reveal_strlit("raw_intensity");
    reveal_strlit("steps");
    reveal_strlit("heart_rate");
    assert(no_newline("raw_intensity"@)) by {
        assert forall|i: int|
            0 <= i < "raw_intensity"@.len() implies "raw_intensity"@[i] != '\n' by {}
    }
    assert(no_newline("steps"@)) by {
        assert forall|i: int| 0 <= i < "steps"@.len() implies "steps"@[i] != '\n' by {}
    }
    assert(no_newline("heart_rate"@)) by {
        assert forall|i: int| 0 <= i < "heart_rate"@.len() implies "heart_rate"@[i] != '\n' by {}
    }
    lemma_line_is_line("raw_intensity"@, name, s.raw_intensity as nat, s.timestamp as nat);
    lemma_line_is_line("steps"@, name, s.steps as nat, s.timestamp as nat);
    lemma_line_is_line("heart_rate"@, name, s.heart_rate as nat, s.timestamp as nat);
}

} // verus!
