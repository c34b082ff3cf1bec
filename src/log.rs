//! Reporting an error together with the chain of its causes.
use vstd::prelude::*;
use crate::text::views;

verus! {

/// The lines that report an error whose description and causes are
/// `chain`, outermost first: the error itself, then each cause indented
/// under it.
pub open spec fn log_lines_of(chain: Seq<Seq<char>>) -> Seq<Seq<char>> {
    Seq::new(
        chain.len(),
        |i: int|
            if i == 0 {
                "[ERROR] - "@ + chain[0]
            } else {
                "        ^-- "@ + chain[i]
            },
    )
}

/// Formats the report of the error chain `chain`.
pub fn format_log_lines(chain: &Vec<String>) -> (r: Vec<String>)
    ensures
        views(r@) == log_lines_of(views(chain@)),
{
    let mut out: Vec<String> = Vec::new();
    let mut i: usize = 0;
    while i < chain.len()
        invariant
            i <= chain@.len(),
            out@.len() == i,
            forall|k: int| 0 <= k < i ==> #[trigger] out@[k]@ == log_lines_of(views(chain@))[k],
        decreases chain@.len() - i,
    {
        let mut line = if i == 0 {
            String::from_str("[ERROR] - ")
        } else {
            String::from_str("        ^-- ")
        };
        line.append(chain[i].as_str());
        out.push(line);
        i = i + 1;
    }
    assert(views(out@) =~= log_lines_of(views(chain@)));
    out
}

/// An error that can report itself with the chain of its causes.
pub trait SourceLoggable {
    /// The description of the error followed by those of its causes,
    /// outermost first.
    spec fn chain(&self) -> Seq<Seq<char>>;

    /// The descriptions of `chain`.
    fn messages(&self) -> (r: Vec<String>)
        ensures
            views(r@) == self.chain(),
    ;

    /// The lines that report the error, one for it and one for each cause.
    fn log_lines(&self) -> (r: Vec<String>)
        ensures
            views(r@) == log_lines_of(self.chain()),
    {
        let chain = self.messages();
        format_log_lines(&chain)
    }
}

} // verus!
