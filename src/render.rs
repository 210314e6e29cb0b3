use vstd::prelude::*;
use vstd::string::StringExecFns;

verus! {

/// What the markdown renderer makes of `text`: the markup, or the text of the
/// message it stopped with. `trusted` says whether raw HTML in the text may
/// pass through unescaped.
pub uninterp spec fn markdown_html(text: Seq<char>, trusted: bool) -> Result<Seq<char>, Seq<char>>;

/// The view of a renderer outcome: markup on success, the message on failure.
pub open spec fn outcome_view(r: Result<String, String>) -> Result<Seq<char>, Seq<char>> {
    match r {
        Ok(h) => Ok(h@),
        Err(m) => Err(m@),
    }
}

/// Relies on markdown::to_html_with_options, run with the GitHub-flavoured
/// option set (`Options::gfm`). When `trusted` holds, raw HTML and dangerous
/// link protocols are let through and the tag filter is off. A failure is
/// handed back as the message's display text.
#[verifier::external_body]
fn markdown_to_html(text: &str, trusted: bool) -> (r: Result<String, String>)
    ensures
        outcome_view(r) == markdown_html(text@, trusted),
{
    let mut options = markdown::Options::gfm();
    options.compile.allow_dangerous_html = trusted;
    options.compile.allow_dangerous_protocol = trusted;
    options.compile.gfm_tagfilter = !trusted;
    markdown::to_html_with_options(text, &options).map_err(|m| m.to_string())
}

/// One update for a viewer: rendered markup, or a message that says why there
/// is none. A failure is shown to the viewer like any other content.
pub enum RenderResult {
    Rendered(String),
    RenderFailure(String),
}

impl View for RenderResult {
    /// `Ok` holds the markup, `Err` the failure message.
    type V = Result<Seq<char>, Seq<char>>;

    open spec fn view(&self) -> Result<Seq<char>, Seq<char>> {
        match self {
            RenderResult::Rendered(h) => Ok(h@),
            RenderResult::RenderFailure(m) => Err(m@),
        }
    }
}

impl RenderResult {
    /// The text a viewer is shown for this result.
    pub fn body(&self) -> (r: &str)
        ensures
            r@ == match self@ {
                Ok(h) => h,
                Err(m) => m,
            },
    {
        match self {
            RenderResult::Rendered(h) => h.as_str(),
            RenderResult::RenderFailure(m) => m.as_str(),
        }
    }

    pub fn is_failure(&self) -> (r: bool)
        ensures
            r == self@ is Err,
    {
        match self {
            RenderResult::Rendered(_) => false,
            RenderResult::RenderFailure(_) => true,
        }
    }
}

/// Renders `text` as markdown. A renderer failure becomes a failure result
/// that carries the renderer's message.
pub fn render(text: &str, trusted: bool) -> (r: RenderResult)
    ensures
        r@ == markdown_html(text@, trusted),
{
    match markdown_to_html(text, trusted) {
        Ok(h) => RenderResult::Rendered(h),
        Err(m) => RenderResult::RenderFailure(m),
    }
}

/// Rendering is a function of the text and the trust decision alone: the same
/// text rendered twice under the same decision gives the same result.
pub proof fn lemma_render_deterministic(a: Seq<char>, b: Seq<char>, trusted: bool)
    requires
        a == b,
    ensures
        markdown_html(a, trusted) == markdown_html(b, trusted),
{
}

/// A file that could not be read, even after retries, and the cause reported
/// by the last attempt.
pub struct ReadError {
    pub path: String,
    pub cause: String,
}

/// The message shown to a viewer when `path` could not be read.
pub open spec fn read_failure_message(path: Seq<char>, cause: Seq<char>) -> Seq<char> {
    "Could not read from file "@ + path + ": "@ + cause
}

/// What a viewer is shown for the result of a read: the rendered text, or a
/// failure that names the file and the last cause.
pub open spec fn read_result_view(r: Result<String, ReadError>, trusted: bool) -> Result<Seq<char>, Seq<char>> {
    match r {
        Ok(text) => markdown_html(text@, trusted),
        Err(e) => Err(read_failure_message(e.path@, e.cause@)),
    }
}

/// Turns the result of a read into the update for the viewer. A read that
/// failed is not an end of the stream: it is delivered as a failure result.
pub fn render_read(r: Result<String, ReadError>, trusted: bool) -> (out: RenderResult)
    ensures
        out@ == read_result_view(r, trusted),
{
    match r {
        Ok(text) => render(text.as_str(), trusted),
        Err(e) => {
            let mut m = String::from_str("Could not read from file ");
            m.append(e.path.as_str());
            m.append(": ");
            m.append(e.cause.as_str());
            RenderResult::RenderFailure(m)
        },
    }
}

} // verus!
