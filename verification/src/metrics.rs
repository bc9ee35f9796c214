//! The metrics responder: renders one gauge reading as exposition text.

use core::fmt::Write;
use vstd::prelude::*;
use vstd::string::*;

verus! {

/// Content type of the exposition text.
pub const CONTENT_TYPE: &'static str = "text/plain; version=0.0.4";

/// The help and type lines that open the body.
pub const HEADER: &'static str =
    "# HELP adc_value The value read from the ADC\n# TYPE adc_value gauge\n";

/// Name and labels of the one metric, up to the blank before its value.
pub const METRIC: &'static str = "adc_value{sensor=\"MQ-2\"} ";

/// Number of digits the value is padded to.
pub const VALUE_WIDTH: usize = 5;

/// Number of bytes of every body. The header, the metric's name and labels
/// and the padded value add up to it.
pub const BODY_LEN: usize = 98;

/// ASCII code of the decimal digit `d % 10`.
pub open spec fn digit(d: nat) -> u8 {
    (48 + d % 10) as u8
}

/// The decimal digits of `n`, most significant first, without padding.
pub open spec fn decimal(n: nat) -> Seq<u8>
    decreases n,
{
    if n < 10 {
        seq![digit(n)]
    } else {
        decimal(n / 10).push(digit(n % 10))
    }
}

/// `n` in decimal, with zeros in front until it is `width` bytes long. A
/// number with more digits than `width` is not cut.
pub open spec fn zero_padded(n: nat, width: nat) -> Seq<u8> {
    let digits = decimal(n);
    if digits.len() >= width {
        digits
    } else {
        Seq::new((width - digits.len()) as nat, |i: int| 48u8) + digits
    }
}

/// The body for a reading: header, metric name and labels, padded value. No
/// newline follows the value.
pub open spec fn exposition(reading: nat) -> Seq<u8> {
    HEADER.spec_bytes() + METRIC.spec_bytes() + zero_padded(reading, VALUE_WIDTH as nat)
}

/// The length that is announced for every body.
pub open spec fn declared_length() -> nat {
    HEADER.spec_bytes().len() + METRIC.spec_bytes().len() + VALUE_WIDTH as nat
}

/// The announced length is the number of bytes of a body. A change of the
/// header, of the metric or of the width that is not followed by `BODY_LEN`
/// fails here.
pub proof fn lemma_body_len()
    ensures
        HEADER.spec_bytes().len() == 68,
        METRIC.spec_bytes().len() == 25,
        declared_length() == BODY_LEN,
{
    reveal_strlit("# HELP adc_value The value read from the ADC\n# TYPE adc_value gauge\n");
    reveal_strlit("adc_value{sensor=\"MQ-2\"} ");
    assert(is_ascii(HEADER));
    assert(is_ascii(METRIC));
}

/// A number has at most `k` decimal digits exactly when it is below `10^k`;
/// stated for the widths up to the one in use, and one beyond.
pub proof fn lemma_decimal_len(n: nat)
    ensures
        decimal(n).len() >= 1,
        n < 10 <==> decimal(n).len() == 1,
        10 <= n < 100 <==> decimal(n).len() == 2,
        100 <= n < 1000 <==> decimal(n).len() == 3,
        1000 <= n < 10000 <==> decimal(n).len() == 4,
        10000 <= n < 100000 <==> decimal(n).len() == 5,
        100000 <= n <==> decimal(n).len() >= 6,
    decreases n,
{
    if n >= 10 {
        lemma_decimal_len(n / 10);
    }
}

/// Padding never shortens and never cuts: the padded text is as long as the
/// width, or as the digits where they are more.
pub proof fn lemma_zero_padded_len(n: nat, width: nat)
    ensures
        zero_padded(n, width).len() == if decimal(n).len() >= width {
            decimal(n).len()
        } else {
            width
        },
{
}

/// The announced length is the length of the body for every reading of at
/// most five digits, and for no other.
pub proof fn lemma_declared_length_matches_body(reading: nat)
    ensures
        reading <= 99999 <==> exposition(reading).len() == declared_length(),
{
    lemma_decimal_len(reading);
    lemma_zero_padded_len(reading, VALUE_WIDTH as nat);
}

/// Renders `reading` as `core::fmt` does for `{:05}`, through a
/// `heapless::String` of capacity 32 (`heapless::String::new`, then
/// `write!`, which appends by `write_str`). Not proved: that the text is
/// the decimal digits of the reading behind as many zeros as bring it to five
/// bytes. A 16-bit reading has at most five digits, so the text is five
/// bytes: it fits the capacity and fills the result.
#[verifier::external_body]
fn format_reading(reading: u16) -> (text: [u8; VALUE_WIDTH])
    ensures
        text@ == zero_padded(reading as nat, VALUE_WIDTH as nat),
{
    let mut value = heapless::String::<32>::new();
    write!(value, "{:05}", reading).unwrap();
    let mut text = [0u8; VALUE_WIDTH];
    text.copy_from_slice(value.as_bytes());
    text
}

/// Copies `text` into `body` from index `at` on, and gives the index behind
/// the copy. The rest of `body` stays as it is.
fn put(body: &mut [u8; BODY_LEN], at: usize, text: &[u8]) -> (end: usize)
    requires
        at + text@.len() <= BODY_LEN,
    ensures
        end == at + text@.len(),
        final(body)@ == old(body)@.take(at as int) + text@ + old(body)@.skip(end as int),
{
    let mut i: usize = 0;
    while i < text.len()
        invariant
            i <= text@.len(),
            at + text@.len() <= BODY_LEN,
            body@ == old(body)@.take(at as int) + text@.take(i as int) + old(body)@.skip(at + i),
        decreases text@.len() - i,
    {
        let byte = text[i];
        body[at + i] = byte;
        proof {
            assert(body@ =~= old(body)@.take(at as int) + text@.take(i + 1) + old(body)@.skip(
                at + i + 1,
            ));
        }
        i += 1;
    }
    proof {
        assert(text@.take(i as int) =~= text@);
    }
    at + i
}

/// The responder for the metrics route. It holds nothing: every call renders
/// the reading it is given.
#[derive(Clone, Copy, Debug)]
pub struct Prometheus;

impl Prometheus {
    /// The content type that goes with the body.
    pub fn content_type(&self) -> (content_type: &'static str)
        ensures
            content_type@ == CONTENT_TYPE@,
    {
        CONTENT_TYPE
    }

    /// The length to announce before the body is written: that of the
    /// header, of the metric's name and labels, and of the padded value.
    pub fn content_length(&self) -> (length: usize)
        ensures
            length == declared_length(),
            length == BODY_LEN,
            forall|reading: u16| length == #[trigger] exposition(reading as nat).len(),
    {
        proof {
            lemma_body_len();
            assert forall|reading: u16| declared_length() == #[trigger] exposition(
                reading as nat,
            ).len() by {
                lemma_declared_length_matches_body(reading as nat);
            }
        }
        HEADER.len() + METRIC.len() + VALUE_WIDTH
    }

    /// The body for `reading`: the header, then the metric's name and
    /// labels, then the value, written in this order.
    pub fn write_content(&self, reading: u16) -> (body: [u8; BODY_LEN])
        ensures
            body@ == exposition(reading as nat),
    {
        proof {
            lemma_body_len();
            lemma_declared_length_matches_body(reading as nat);
        }
        let value = format_reading(reading);
        let mut body = [0u8; BODY_LEN];
        let at = put(&mut body, 0, HEADER.as_bytes());
        let at = put(&mut body, at, METRIC.as_bytes());
        let at = put(&mut body, at, value.as_slice());
        proof {
            assert(body@ =~= exposition(reading as nat));
        }
        body
    }
}

} // verus!
