//! The ways in which an entry can fail to be fetched.

use vstd::prelude::*;

use crate::duration::Duration;

verus! {

/// Why there is no file for an entry.
#[derive(Clone, Debug, PartialEq, Eq)]
pub enum CacheError {
    /// The file does not exist at the source.
    NotFound,
    /// The source refused access. The attached text is the reason it gave.
    PermissionDenied(String),
    /// The file could not be fetched within the attached time.
    Timeout(Duration),
    /// The file could not be fetched. The attached text is the cause.
    DownloadError(String),
    /// Something went wrong in the service itself.
    InternalError,
}

/// The file that belongs to an entry, or why there is none.
pub type CacheEntry<T> = Result<T, CacheError>;

/// What a [`CacheError`] says, with its texts as sequences of characters.
pub enum CacheErrorView {
    NotFound,
    PermissionDenied(Seq<char>),
    Timeout(Duration),
    DownloadError(Seq<char>),
    InternalError,
}

impl View for CacheError {
    type V = CacheErrorView;

    open spec fn view(&self) -> CacheErrorView {
        match self {
            CacheError::NotFound => CacheErrorView::NotFound,
            CacheError::PermissionDenied(details) => CacheErrorView::PermissionDenied(details@),
            CacheError::Timeout(limit) => CacheErrorView::Timeout(*limit),
            CacheError::DownloadError(details) => CacheErrorView::DownloadError(details@),
            CacheError::InternalError => CacheErrorView::InternalError,
        }
    }
}

/// The message of an error and of the errors that caused it, each followed by its own cause.
#[derive(Clone, Debug, PartialEq, Eq)]
pub struct ErrorChain {
    /// The message of the error itself.
    pub message: String,
    /// The messages of its causes, from the immediate one to the root.
    pub sources: Vec<String>,
}

impl ErrorChain {
    /// The message of the error that all others in the chain come from.
    pub open spec fn root(&self) -> Seq<char> {
        if self.sources@.len() == 0 {
            self.message@
        } else {
            self.sources@.last()@
        }
    }
}

/// Whether `needle` occurs in `text` as consecutive characters.
pub open spec fn occurs_in(needle: Seq<char>, text: Seq<char>) -> bool {
    exists|start: int|
        #![trigger text.subrange(start, start + needle.len())]
        0 <= start && start + needle.len() <= text.len() && text.subrange(
            start,
            start + needle.len(),
        ) == needle
}

/// The text that stands for an error message in a [`CacheError::DownloadError`]: failures of the
/// encryption layer come in many spellings, which are reduced to one each.
pub open spec fn reduced_message(message: Seq<char>) -> Seq<char> {
    if occurs_in("certificate verify failed"@, message) {
        "certificate verify failed"@
    } else if occurs_in("SSL routines"@, message) {
        "SSL error"@
    } else {
        message
    }
}

/// Calls [`str::contains`] with a string as the pattern: true exactly when the pattern matches a
/// part of the text.
#[verifier::external_body]
fn contains(text: &str, pattern: &str) -> (found: bool)
    ensures
        found == occurs_in(pattern@, text@),
{
    text.contains(pattern)
}

impl CacheError {
    /// The error for a download that failed with `error`: it keeps the root cause.
    pub fn download_error(error: &ErrorChain) -> (reduced: Self)
        ensures
            reduced@ == CacheErrorView::DownloadError(reduced_message(error.root())),
    {
        let count: usize = error.sources.len();
        let root: &str = if count == 0 {
            error.message.as_str()
        } else {
            error.sources[count - 1].as_str()
        };
        let mut text: &str = root;
        if contains(text, "certificate verify failed") {
            text = "certificate verify failed";
        }
        proof {
            lemma_certificate_text_names_no_routine();
        }
        if contains(text, "SSL routines") {
            text = "SSL error";
        }
        CacheError::DownloadError(text.to_owned())
    }

    /// The error for a failure of the object storage client, which keeps its whole message.
    pub fn gcs_error(message: String) -> (error: Self)
        ensures
            error@ == CacheErrorView::DownloadError(message@),
    {
        CacheError::DownloadError(message)
    }
}

proof fn lemma_certificate_text_names_no_routine()
    ensures
        !occurs_in("SSL routines"@, "certificate verify failed"@),
{
    reveal_strlit("SSL routines");
    reveal_strlit("certificate verify failed");
    let needle = "SSL routines"@;
    let text = "certificate verify failed"@;
    assert(needle[0] == 'S');
    assert(text[0] == 'c' && text[1] == 'e' && text[2] == 'r' && text[3] == 't');
    assert(text[4] == 'i' && text[5] == 'f' && text[6] == 'i' && text[7] == 'c');
    assert(text[8] == 'a' && text[9] == 't' && text[10] == 'e' && text[11] == ' ');
    assert(text[12] == 'v' && text[13] == 'e');
    assert forall|start: int|
        #![trigger text.subrange(start, start + needle.len())]
        0 <= start && start + needle.len() <= text.len() implies text.subrange(
        start,
        start + needle.len(),
    ) != needle by {
        assert(text.subrange(start, start + needle.len())[0] == text[start]);
    }
}

/// A reduced message is not reduced any further, so that an error that has passed through
/// several hands still reads the same.
pub proof fn law_reduced_messages_are_stable(message: Seq<char>)
    ensures
        reduced_message(reduced_message(message)) == reduced_message(message),
{
    let certificate = "certificate verify failed"@;
    let start: int = 0;
    assert(certificate.subrange(start, start + certificate.len()) == certificate);
    reveal_strlit("certificate verify failed");
    reveal_strlit("SSL routines");
    reveal_strlit("SSL error");
}

/// A certificate that could not be verified is reported as such, even where the message also
/// names the routines that found it out.
pub proof fn law_certificate_failures_come_first(message: Seq<char>)
    requires
        occurs_in("certificate verify failed"@, message),
    ensures
        reduced_message(message) == "certificate verify failed"@,
{
}

/// A text occurs in another exactly if the other is made of something, the text, and something
/// else.
pub proof fn law_occurrences(needle: Seq<char>, text: Seq<char>)
    ensures
        occurs_in(needle, text) <==> exists|before: Seq<char>, after: Seq<char>|
            text == #[trigger] (before + needle + after),
{
    if occurs_in(needle, text) {
        let start = choose|start: int|
            #![trigger text.subrange(start, start + needle.len())]
            0 <= start && start + needle.len() <= text.len() && text.subrange(
                start,
                start + needle.len(),
            ) == needle;
        let before = text.take(start);
        let after = text.skip(start + needle.len());
        assert(text == before + needle + after) by {
            let middle = text.subrange(start, start + needle.len());
            assert(before + middle + after == text);
        }
    }
    if exists|before: Seq<char>, after: Seq<char>| text == #[trigger] (before + needle + after) {
        let (before, after) = choose|before: Seq<char>, after: Seq<char>|
            text == #[trigger] (before + needle + after);
        let start = before.len() as int;
        assert(text.subrange(start, start + needle.len()) == needle);
    }
}

/// A failed download is reported with the message at the root of the failure, whatever stands above
/// it. That message is kept to the letter, unless it is about a certificate that could not be
/// verified or else about the routines of the encryption layer.
pub proof fn law_download_errors_keep_the_root_cause(
    chain: ErrorChain,
    root: Seq<char>,
    error: CacheError,
)
    requires
        call_ensures(CacheError::download_error, (&chain,), error),
        chain.sources@.len() == 0 ==> root == chain.message@,
        chain.sources@.len() > 0 ==> root == chain.sources@[chain.sources@.len() - 1]@,
    ensures
        error is DownloadError,
        forall|before: Seq<char>, after: Seq<char>|
            root == #[trigger] (before + "certificate verify failed"@ + after)
                ==> error->DownloadError_0@ == "certificate verify failed"@,
        forall|before: Seq<char>, after: Seq<char>|
            root == #[trigger] (before + "SSL routines"@ + after) ==> error->DownloadError_0@
                == "SSL error"@ || error->DownloadError_0@ == "certificate verify failed"@,
        error->DownloadError_0@ != root ==> exists|before: Seq<char>, after: Seq<char>|
            #![trigger before + "certificate verify failed"@ + after]
            #![trigger before + "SSL routines"@ + after]
            {
                ||| {
                    &&& root == before + "certificate verify failed"@ + after
                    &&& error->DownloadError_0@ == "certificate verify failed"@
                }
                ||| {
                    &&& root == before + "SSL routines"@ + after
                    &&& error->DownloadError_0@ == "SSL error"@
                }
            },
        error->DownloadError_0@ == "certificate verify failed"@ ==> exists|
            before: Seq<char>,
            after: Seq<char>,
        |
            root == #[trigger] (before + "certificate verify failed"@ + after),
{
    law_occurrences("certificate verify failed"@, root);
    law_occurrences("SSL routines"@, root);
    assert("SSL error"@ != "certificate verify failed"@) by {
        reveal_strlit("SSL error");
        reveal_strlit("certificate verify failed");
    }
    if root == "certificate verify failed"@ {
        let none = Seq::<char>::empty();
        assert(root == none + "certificate verify failed"@ + none);
    }
}

/// Failures with the same root cause are reported alike, however they came up.
pub proof fn law_only_the_root_cause_is_reported(
    first: ErrorChain,
    second: ErrorChain,
    one: CacheError,
    other: CacheError,
)
    requires
        call_ensures(CacheError::download_error, (&first,), one),
        call_ensures(CacheError::download_error, (&second,), other),
        first.sources@.len() > 0,
        if second.sources@.len() == 0 {
            second.message@ == first.sources@.last()@
        } else {
            second.sources@.last()@ == first.sources@.last()@
        },
    ensures
        one is DownloadError,
        other is DownloadError,
        one->DownloadError_0@ == other->DownloadError_0@,
{
}

/// The message of the object storage client is kept to the letter, whatever it is about.
pub proof fn law_storage_errors_keep_their_message(message: String, error: CacheError)
    requires
        call_ensures(CacheError::gcs_error, (message,), error),
    ensures
        error is DownloadError,
        error->DownloadError_0@ == message@,
{
}

} // verus!
