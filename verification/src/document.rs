//! Documents retrieved from the vector store, and the text built from
//! them: the context block handed to the model, and the title a stored
//! document gets from its body.

use vstd::prelude::*;
use vstd::string::StringExecFns;
use vstd::string::StrSliceExecFns;

verus! {

/// A document the store returned for a query: the fields the chat
/// logic reads.  The store also reports a relevance distance, which
/// nothing downstream consumes; it stays with the caller.
#[derive(Clone, Debug)]
pub struct DocumentResult {
    /// The document's title.
    pub title: String,
    /// The document's text.
    pub body: String,
}

/// The mathematical model of a retrieved document.
pub struct DocumentModel {
    pub title: Seq<char>,
    pub body: Seq<char>,
}

impl View for DocumentResult {
    type V = DocumentModel;

    open spec fn view(&self) -> DocumentModel {
        DocumentModel { title: self.title@, body: self.body@ }
    }
}

/// The lines one document contributes to the context block.
pub open spec fn entry_text(d: DocumentModel) -> Seq<char> {
    "Title: "@ + d.title + "\nBody: "@ + d.body + "\n"@
}

/// The whole context block: the documents' entries joined by blank
/// lines; nothing at all when the search came back empty.
pub open spec fn context_text(docs: Seq<DocumentModel>) -> Seq<char>
    decreases docs.len(),
{
    if docs.len() == 0 {
        Seq::<char>::empty()
    } else if docs.len() == 1 {
        entry_text(docs[0])
    } else {
        context_text(docs.drop_last()) + "\n"@ + entry_text(docs.last())
    }
}

/// Builds the context block handed to the model from the documents a
/// search returned: one titled entry per document, joined by blank
/// lines.
pub fn format_context(results: &Vec<DocumentResult>) -> (r: String)
    ensures
        r@ == context_text(results@.map_values(|d: DocumentResult| d@)),
{
    let ghost models = results@.map_values(|d: DocumentResult| d@);
    let mut acc = String::new();
    let mut i: usize = 0;
    while i < results.len()
        invariant
            i <= results.len(),
            models == results@.map_values(|d: DocumentResult| d@),
            acc@ == context_text(models.take(i as int)),
        decreases results.len() - i,
    {
        let d = &results[i];
        let entry = String::from_str("Title: ").concat(d.title.as_str()).concat(
            "\nBody: ",
        ).concat(d.body.as_str()).concat("\n");
        assert(entry@ == entry_text(models[i as int]));
        if i == 0 {
            acc = entry;
            proof {
                assert(models.take(1) =~= seq![models[0]]);
                assert(context_text(models.take(1)) == entry_text(models[0]));
            }
        } else {
            acc = acc.concat("\n").concat(entry.as_str());
            proof {
                assert(models.take(i as int + 1).drop_last() =~= models.take(i as int));
                assert(models.take(i as int + 1).last() == models[i as int]);
            }
        }
        i = i + 1;
    }
    proof {
        assert(models.take(results@.len() as int) =~= models);
    }
    acc
}

/// The index of the first line feed, or the length when there is
/// none: where a body's first line ends.
pub open spec fn first_newline(s: Seq<char>) -> int
    decreases s.len(),
{
    if s.len() == 0 {
        0
    } else if s[0] == '\n' {
        0
    } else {
        1 + first_newline(s.drop_first())
    }
}

/// Any index below which no line feed occurs, and that lands on one
/// unless it is the length, is [`first_newline`] itself.
proof fn lemma_first_newline_unique(s: Seq<char>, i: int)
    requires
        0 <= i <= s.len(),
        forall|j: int| 0 <= j < i ==> s[j] != '\n',
        i < s.len() ==> s[i] == '\n',
    ensures
        first_newline(s) == i,
    decreases s.len(),
{
    if s.len() > 0 && s[0] != '\n' {
        lemma_first_newline_unique(s.drop_first(), i - 1);
    }
}

/// The title a stored document gets: its body's first line — without
/// the line ending, whether a line feed or a carriage return and line
/// feed — or the word Unknown when the body is empty.
pub open spec fn title_text(body: Seq<char>) -> Seq<char> {
    if body.len() == 0 {
        "Unknown"@
    } else {
        let line = body.take(first_newline(body));
        if first_newline(body) < body.len() && line.len() > 0 && line.last() == '\r' {
            line.drop_last()
        } else {
            line
        }
    }
}

/// Extracts the title a document is stored under from its body, as
/// [`title_text`] says.
pub fn title_of_body(body: &str) -> (r: String)
    ensures
        r@ == title_text(body@),
{
    let n = body.unicode_len();
    if n == 0 {
        return String::from_str("Unknown");
    }
    let mut i: usize = 0;
    while i < n && body.get_char(i) != '\n'
        invariant
            n == body@.len(),
            i <= n,
            forall|j: int| 0 <= j < i ==> body@[j] != '\n',
        decreases n - i,
    {
        i = i + 1;
    }
    proof {
        lemma_first_newline_unique(body@, i as int);
    }
    let mut end = i;
    if i < n && end > 0 && body.get_char(end - 1) == '\r' {
        end = end - 1;
        proof {
            assert(body@.take(i as int).last() == body@[i as int - 1]);
            assert(body@.take(i as int).drop_last() =~= body@.take(end as int));
        }
    } else {
        proof {
            if i < n && i > 0 {
                assert(body@.take(i as int).last() == body@[i as int - 1]);
            }
        }
    }
    let line = body.substring_char(0, end);
    proof {
        assert(line@ =~= body@.take(end as int));
    }
    String::from_str(line)
}

} // verus!
