//! From free text to the fields of a page: the title, the first link and
//! the tags.

use vstd::prelude::*;
use crate::constants::{INVALID_PATTERN_MSG, MISSING_GROUP_MSG};
use crate::text::chars_of;

verus! {

/// Matches a link: `http://` or `https://` and what follows up to the next
/// whitespace. The link is the first group.
pub const LINK_PATTERN: &'static str = r"(https?:\/\/[^\s]+)";

/// Matches a tag: whitespace, `@` or `#`, then word characters. The word,
/// without its marker, is the first group.
pub const TAG_PATTERN: &'static str = r"\s(?:@|#)(\w+)";

/// What a message's text yields. `tags` is `None` where the text has no tag,
/// never an empty list.
#[derive(Clone, Debug, Default, PartialEq)]
pub struct TextElements {
    pub title: Option<String>,
    pub url: Option<String>,
    pub tags: Option<Vec<String>>,
}

pub struct TextElementsView {
    pub title: Option<Seq<char>>,
    pub url: Option<Seq<char>>,
    pub tags: Option<Seq<Seq<char>>>,
}

impl DeepView for TextElements {
    type V = TextElementsView;

    open spec fn deep_view(&self) -> TextElementsView {
        TextElementsView {
            title: self.title.deep_view(),
            url: self.url.deep_view(),
            tags: self.tags.deep_view(),
        }
    }
}

/// Why a search could not be read off.
#[derive(Clone, Copy, Debug, PartialEq, Eq, Structural)]
pub enum ExtractError {
    /// The pattern is not a regular expression, or too large a one.
    InvalidPattern,
    /// A match came without the group that was asked for.
    MissingGroup,
}

/// What the user is told of an error.
pub open spec fn error_text(error: ExtractError) -> Seq<char> {
    match error {
        ExtractError::InvalidPattern => INVALID_PATTERN_MSG@,
        ExtractError::MissingGroup => MISSING_GROUP_MSG@,
    }
}

impl ExtractError {
    /// What the user is told of the error.
    pub fn message(&self) -> (text: String)
        ensures
            text@ == error_text(*self),
    {
        match self {
            ExtractError::InvalidPattern => String::from_str(INVALID_PATTERN_MSG),
            ExtractError::MissingGroup => String::from_str(MISSING_GROUP_MSG),
        }
    }
}

/// The position of the first line feed in `s`, or the length of `s` where it
/// has none.
pub open spec fn line_end(s: Seq<char>) -> int
    decreases s.len(),
{
    if s.len() == 0 || s[0] == '\n' {
        0
    } else {
        1 + line_end(s.drop_first())
    }
}

/// The first line of `s`: what stands before the first line feed, less one
/// carriage return directly before it; all of `s` where it has no line feed.
pub open spec fn first_line(s: Seq<char>) -> Seq<char> {
    let end = line_end(s);
    if 0 < end < s.len() && s[end - 1] == '\r' {
        s.take(end - 1)
    } else {
        s.take(end)
    }
}

/// `line_end` is the one position before which no line feed stands and at
/// which one does, unless the text ends there.
pub proof fn lemma_line_end(s: Seq<char>, end: int)
    requires
        0 <= end <= s.len(),
        forall|j: int| 0 <= j < end ==> s[j] != '\n',
        end < s.len() ==> s[end] == '\n',
    ensures
        line_end(s) == end,
    decreases s.len(),
{
    if end > 0 {
        let rest = s.drop_first();
        assert(s[0] != '\n');
        assert forall|j: int| 0 <= j < end - 1 implies rest[j] != '\n' by {
            assert(rest[j] == s[j + 1]);
        }
        if end < s.len() {
            assert(rest[end - 1] == s[end]);
        }
        lemma_line_end(rest, end - 1);
    }
}

/// No line feed stands before `line_end`, which lies within the text.
pub proof fn lemma_line_end_bounds(s: Seq<char>)
    ensures
        0 <= line_end(s) <= s.len(),
        forall|j: int| 0 <= j < line_end(s) ==> s[j] != '\n',
        line_end(s) < s.len() ==> s[line_end(s)] == '\n',
    decreases s.len(),
{
    if s.len() > 0 && s[0] != '\n' {
        let rest = s.drop_first();
        lemma_line_end_bounds(rest);
        assert forall|j: int| 0 <= j < line_end(s) implies s[j] != '\n' by {
            if j > 0 {
                assert(rest[j - 1] == s[j]);
            }
        }
        if line_end(s) < s.len() {
            assert(rest[line_end(rest)] == s[line_end(s)]);
        }
    }
}

/// Taking the first line of a first line changes nothing: the title of a
/// text is the title of its first line.
pub proof fn lemma_first_line_idempotent(s: Seq<char>)
    ensures
        first_line(first_line(s)) == first_line(s),
{
    lemma_line_end_bounds(s);
    let line = first_line(s);
    assert forall|j: int| 0 <= j < line.len() implies line[j] != '\n' by {
        assert(line[j] == s[j]);
    }
    lemma_line_end(line, line.len() as int);
    assert(line.take(line.len() as int) =~= line);
}

/// The first line of `text`.
pub fn title_of(text: &str) -> (title: String)
    ensures
        title@ == first_line(text@),
{
    let chars = chars_of(text);
    let mut end: usize = 0;
    while end < chars.len() && chars[end] != '\n'
        invariant
            end <= chars.len(),
            forall|j: int| 0 <= j < end ==> chars@[j] != '\n',
        decreases chars.len() - end,
    {
        end += 1;
    }
    proof {
        lemma_line_end(chars@, end as int);
    }
    let stop = if 0 < end && end < chars.len() && chars[end - 1] == '\r' {
        end - 1
    } else {
        end
    };
    String::from_str(text.substring_char(0, stop))
}

/// Why `regex` could not compile a pattern. Nothing is read off it.
#[verifier::external_type_specification]
#[verifier::external_body]
pub struct ExRegexError(regex::Error);

/// What a search of `haystack` for `pattern` finds: `None` where `regex`
/// does not accept the pattern; else, for each successive non-overlapping
/// match from left to right, what group number `group` matched, or `None`
/// where that group took no part in the match.
pub uninterp spec fn regex_groups(pattern: Seq<char>, group: nat, haystack: Seq<char>) -> Option<
    Seq<Option<Seq<char>>>,
>;

/// Compiles `pattern` with `regex::Regex::new`, walks the matches that
/// `Regex::captures_iter` yields on `haystack`, and takes from each the text
/// of `Captures::get(group)`. The result is what `regex_groups` names: the
/// same pattern, group and haystack always give the same answer.
#[verifier::external_body]
fn search_groups(pattern: &str, group: usize, haystack: &str) -> (found: Result<
    Vec<Option<String>>,
    regex::Error,
>)
    ensures
        match found {
            Ok(groups) => regex_groups(pattern@, group as nat, haystack@) == Some(
                groups.deep_view(),
            ),
            Err(_) => regex_groups(pattern@, group as nat, haystack@) is None,
        },
{
    let compiled = regex::Regex::new(pattern)?;
    Ok(
        compiled.captures_iter(haystack).map(
            |found| found.get(group).map(|part| part.as_str().to_string()),
        ).collect(),
    )
}

/// Whether every match came with its group.
pub open spec fn all_present(groups: Seq<Option<Seq<char>>>) -> bool {
    forall|i: int| 0 <= i < groups.len() ==> (#[trigger] groups[i]) is Some
}

/// The groups themselves, once every one is known to be there.
pub open spec fn unwrapped(groups: Seq<Option<Seq<char>>>) -> Seq<Seq<char>> {
    Seq::new(groups.len(), |i: int| groups[i]->0)
}

/// What the groups of a search amount to: an error where one is missing,
/// `None` where nothing matched, else all of them in the order found,
/// repetitions included.
pub open spec fn collected(groups: Seq<Option<Seq<char>>>) -> Result<
    Option<Seq<Seq<char>>>,
    ExtractError,
> {
    if !all_present(groups) {
        Err(ExtractError::MissingGroup)
    } else if groups.len() == 0 {
        Ok(None)
    } else {
        Ok(Some(unwrapped(groups)))
    }
}

/// What a search amounts to, from compiling the pattern on.
pub open spec fn search_outcome(found: Option<Seq<Option<Seq<char>>>>) -> Result<
    Option<Seq<Seq<char>>>,
    ExtractError,
> {
    match found {
        Some(groups) => collected(groups),
        None => Err(ExtractError::InvalidPattern),
    }
}

/// The fields of a page, from the text and the two searches already made.
pub open spec fn extracted(
    text: Seq<char>,
    links: Option<Seq<Seq<char>>>,
    tags: Option<Seq<Seq<char>>>,
) -> TextElementsView {
    TextElementsView {
        title: Some(first_line(text)),
        url: match links {
            Some(found) => if found.len() > 0 {
                Some(found[0])
            } else {
                None
            },
            None => None,
        },
        tags: tags,
    }
}

/// What `handle_text` makes of a text, given what the two searches find.
pub open spec fn text_outcome(
    text: Seq<char>,
    links: Option<Seq<Option<Seq<char>>>>,
    tags: Option<Seq<Option<Seq<char>>>>,
) -> Result<TextElementsView, ExtractError> {
    match search_outcome(links) {
        Err(error) => Err(error),
        Ok(links_found) => match search_outcome(tags) {
            Err(error) => Err(error),
            Ok(tags_found) => Ok(extracted(text, links_found, tags_found)),
        },
    }
}

/// A search that finds nothing yields no tags at all, and tags that are
/// there are never an empty list.
pub proof fn lemma_no_match_is_no_tags(
    text: Seq<char>,
    links: Option<Seq<Option<Seq<char>>>>,
    tags: Option<Seq<Option<Seq<char>>>>,
)
    ensures
        search_outcome(Some(Seq::empty())) == Ok::<Option<Seq<Seq<char>>>, ExtractError>(None),
        search_outcome(tags) matches Ok(Some(found)) ==> found.len() > 0,
        text_outcome(text, links, tags) matches Ok(elements) ==> {
            &&& elements.tags matches Some(found) ==> found.len() > 0
            &&& elements.tags is None <==> tags == Some(Seq::<Option<Seq<char>>>::empty())
        },
{
    match tags {
        Some(groups) => {
            if groups.len() == 0 {
                assert(groups =~= Seq::empty());
            }
        },
        None => {},
    }
}

/// Reads off the groups of a search.
pub fn collect_groups(groups: Vec<Option<String>>) -> (outcome: Result<
    Option<Vec<String>>,
    ExtractError,
>)
    ensures
        match outcome {
            Ok(found) => collected(groups.deep_view()) == Ok::<_, ExtractError>(found.deep_view()),
            Err(error) => collected(groups.deep_view()) == Err::<Option<Seq<Seq<char>>>, _>(error),
        },
        outcome matches Ok(Some(found)) ==> found.len() > 0,
{
    let ghost wanted = unwrapped(groups.deep_view());
    let mut found: Vec<String> = Vec::new();
    let mut i: usize = 0;
    while i < groups.len()
        invariant
            i <= groups.len(),
            wanted == unwrapped(groups.deep_view()),
            forall|j: int| 0 <= j < i ==> (#[trigger] groups.deep_view()[j]) is Some,
            found.deep_view() =~= wanted.take(i as int),
        decreases groups.len() - i,
    {
        match &groups[i] {
            Some(part) => {
                let ghost before = found.deep_view();
                found.push(part.clone());
                proof {
                    assert(groups.deep_view()[i as int] == Some(part@));
                    assert(found.deep_view() =~= before.push(part@));
                    assert(wanted.take(i + 1) =~= wanted.take(i as int).push(wanted[i as int]));
                }
            },
            None => {
                assert(groups.deep_view()[i as int] is None);
                return Err(ExtractError::MissingGroup);
            },
        }
        i += 1;
    }
    assert(found.deep_view() =~= wanted);
    if found.len() != 0 {
        Ok(Some(found))
    } else {
        Ok(None)
    }
}

/// Searches `text` for `pattern` and returns the first group of every
/// match, in order; `None` where nothing matches.
pub fn match_regex(pattern: &str, text: &str) -> (outcome: Result<
    Option<Vec<String>>,
    ExtractError,
>)
    ensures
        match outcome {
            Ok(found) => search_outcome(regex_groups(pattern@, 1, text@)) == Ok::<_, ExtractError>(
                found.deep_view(),
            ),
            Err(error) => search_outcome(regex_groups(pattern@, 1, text@)) == Err::<
                Option<Seq<Seq<char>>>,
                _,
            >(error),
        },
        outcome matches Ok(Some(found)) ==> found.len() > 0,
{
    match search_groups(pattern, 1, text) {
        Ok(groups) => collect_groups(groups),
        Err(_) => Err(ExtractError::InvalidPattern),
    }
}

/// Puts the fields together: the first line as title, the first link found
/// and the tags as found.
pub fn elements_from(
    text: &str,
    links: Option<Vec<String>>,
    tags: Option<Vec<String>>,
) -> (elements: TextElements)
    ensures
        elements.deep_view() == extracted(text@, links.deep_view(), tags.deep_view()),
{
    let url = match links {
        Some(mut found) => if found.len() > 0 {
            assert(found.deep_view()[0] == found[0]@);
            Some(found.swap_remove(0))
        } else {
            None
        },
        None => None,
    };
    TextElements { title: Some(title_of(text)), url, tags }
}

/// Extracts title, first link and tags from a message's text.
pub fn handle_text(text: String) -> (outcome: Result<TextElements, ExtractError>)
    ensures
        match outcome {
            Ok(elements) => text_outcome(
                text@,
                regex_groups(LINK_PATTERN@, 1, text@),
                regex_groups(TAG_PATTERN@, 1, text@),
            ) == Ok::<_, ExtractError>(elements.deep_view()),
            Err(error) => text_outcome(
                text@,
                regex_groups(LINK_PATTERN@, 1, text@),
                regex_groups(TAG_PATTERN@, 1, text@),
            ) == Err::<TextElementsView, _>(error),
        },
        outcome matches Ok(elements) ==> elements.title is Some && (elements.tags matches Some(
            found,
        ) ==> found.len() > 0),
{
    let links = match match_regex(LINK_PATTERN, text.as_str()) {
        Ok(found) => found,
        Err(error) => {
            return Err(error);
        },
    };
    let tags = match match_regex(TAG_PATTERN, text.as_str()) {
        Ok(found) => found,
        Err(error) => {
            return Err(error);
        },
    };
    let ghost searched = tags.deep_view();
    let elements = elements_from(text.as_str(), links, tags);
    proof {
        assert(elements.tags.deep_view() == searched);
        if elements.tags is Some {
            assert(elements.tags->0.deep_view().len() == elements.tags->0.len());
        }
    }
    Ok(elements)
}

} // verus!
