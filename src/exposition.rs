use vstd::prelude::*;

use crate::handlers::EncodingError;
use crate::metrics::{
    Counters, TODO_COMPLETED_HELP, TODO_COMPLETED_NAME, TODO_CREATED_HELP, TODO_CREATED_NAME,
};

verus! {

#[verifier::external_type_specification]
#[verifier::external_body]
pub struct ExPrometheusError(prometheus::Error);

/// The largest value up to which every `u64` passes through `f64` unchanged.
pub const EXACT_LIMIT: u64 = 9007199254740992;

/// A metric name as prometheus accepts it: `[a-zA-Z_:][a-zA-Z0-9_:]*`.
pub open spec fn is_metric_name(s: Seq<char>) -> bool {
    &&& s.len() > 0
    &&& forall|i: int|
        0 <= i < s.len() ==> {
            let c = #[trigger] s[i];
            ||| 'a' <= c <= 'z'
            ||| 'A' <= c <= 'Z'
            ||| c == '_'
            ||| c == ':'
            ||| (i > 0 && '0' <= c <= '9')
        }
}

/// A help text that the encoder writes as it is: not empty, and with no
/// backslash and no line break to escape.
pub open spec fn is_plain_help(s: Seq<char>) -> bool {
    s.len() > 0 && forall|i: int| 0 <= i < s.len() ==> #[trigger] s[i] != '\\' && s[i] != '\n'
}

/// The decimal digit of a number below ten.
pub open spec fn digit(d: nat) -> char {
    if d == 0 { '0' } else if d == 1 { '1' } else if d == 2 { '2' } else if d == 3 { '3' }
    else if d == 4 { '4' } else if d == 5 { '5' } else if d == 6 { '6' } else if d == 7 { '7' }
    else if d == 8 { '8' } else { '9' }
}

/// The decimal digits of a number, without leading zeros.
pub open spec fn decimal(n: nat) -> Seq<char>
    decreases n,
{
    if n < 10 {
        seq![digit(n)]
    } else {
        decimal(n / 10).push(digit(n % 10))
    }
}

/// The text exposition of one counter without labels: its help line, its
/// type line and its one sample.
pub open spec fn counter_text(name: Seq<char>, help: Seq<char>, value: nat) -> Seq<char> {
    seq!['#', ' ', 'H', 'E', 'L', 'P', ' '] + name + seq![' '] + help + seq!['\n']
        + seq!['#', ' ', 'T', 'Y', 'P', 'E', ' '] + name
        + seq![' ', 'c', 'o', 'u', 'n', 't', 'e', 'r', '\n'] + name + seq![' '] + decimal(value)
        + seq!['\n']
}

/// The text exposition of the two counters: the created counter, then the
/// completed counter.
pub open spec fn metrics_text(c: Counters) -> Seq<char> {
    counter_text(TODO_CREATED_NAME@, TODO_CREATED_HELP@, c.created_total as nat) + counter_text(
        TODO_COMPLETED_NAME@,
        TODO_COMPLETED_HELP@,
        c.completed_total as nat,
    )
}

/// Relies on prometheus's `IntCounter::new`, `IntCounter::inc_by`, the
/// counter's `Collector::collect` and `TextEncoder::encode_to_string`: a
/// counter is made only for a valid name and a non-empty help text; it
/// collects into one family of type counter with one sample without labels
/// or timestamp, which the encoder writes as a help line, a type line and
/// `name value`, the value being the `u64` through `f64` and `f64`'s
/// `Display`, which is exact up to 2^53.
#[verifier::external_body]
fn encode_counter(name: &str, help: &str, value: u64) -> (r: Result<String, prometheus::Error>)
    ensures
        is_metric_name(name@) && help@.len() > 0 ==> r is Ok,
        r is Ok && is_plain_help(help@) && value <= EXACT_LIMIT ==> r->Ok_0@ == counter_text(
            name@,
            help@,
            value as nat,
        ),
{
    let counter = prometheus::IntCounter::new(name, help)?;
    counter.inc_by(value);
    let families = prometheus::core::Collector::collect(&counter);
    prometheus::TextEncoder::new().encode_to_string(&families)
}

/// The names and help texts of both counters are valid and written as they
/// are.
pub proof fn lemma_counter_names_valid()
    ensures
        is_metric_name(TODO_CREATED_NAME@),
        is_metric_name(TODO_COMPLETED_NAME@),
        is_plain_help(TODO_CREATED_HELP@),
        is_plain_help(TODO_COMPLETED_HELP@),
{
    reveal_strlit("todo_created_total");
    reveal_strlit("todo_completed_total");
    reveal_strlit("Total number of created todo items");
    reveal_strlit("Total number of completed todo items");
}

/// The text exposition of the two counters at their current values. It
/// always succeeds; up to 2^53 each value is written exactly.
pub fn encode_metrics(c: &Counters) -> (r: Result<String, EncodingError>)
    ensures
        r is Ok,
        c.created_total <= EXACT_LIMIT && c.completed_total <= EXACT_LIMIT ==> r->Ok_0@
            == metrics_text(*c),
{
    proof {
        lemma_counter_names_valid();
    }
    let created = encode_counter(TODO_CREATED_NAME, TODO_CREATED_HELP, c.created_total);
    let completed = encode_counter(TODO_COMPLETED_NAME, TODO_COMPLETED_HELP, c.completed_total);
    match (created, completed) {
        (Ok(a), Ok(b)) => {
            let mut text = a;
            text.append(b.as_str());
            Ok(text)
        },
        _ => Err(EncodingError),
    }
}

} // verus!
