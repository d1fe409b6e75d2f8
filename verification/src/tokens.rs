//! The token extractor: finding the hidden form values of the sign-in page and
//! the security token of the portal page.
//!
//! Reading HTML is left to the `scraper` crate. What is decided here is which
//! element is asked for, which of the elements that answer counts, and what a
//! missing one means.
use vstd::prelude::*;

verus! {

/// What `scraper` finds in `document` for `selector` and `attribute`: nothing
/// where the selector is not accepted; otherwise, for each element of the
/// document that matches it, in the order in which `scraper` comes to them, the
/// value of `attribute` on that element, if it has the attribute.
pub uninterp spec fn matching_attributes(
    document: Seq<char>,
    selector: Seq<char>,
    attribute: Seq<char>,
) -> Option<Seq<Option<Seq<char>>>>;

/// Asks `scraper` for the elements of `document` that match `selector`, and for
/// `attribute` on each.
///
/// The document is parsed with `Html::parse_document`, which takes any text,
/// and the selector with `Selector::parse`. `Html::select` yields the matching
/// elements, and `Element::attr` looks the attribute up on each. The contract
/// claims no more than that the outcome is fixed by the three texts.
#[verifier::external_body]
fn attributes_of_matches(document: &str, selector: &str, attribute: &str) -> (found: Option<
    Vec<Option<String>>,
>)
    ensures
        found.deep_view() == matching_attributes(document@, selector@, attribute@),
{
    let compiled = scraper::Selector::parse(selector).ok()?;
    let parsed = scraper::Html::parse_document(document);
    let matches = parsed.select(&compiled);
    Some(matches.map(|element| element.value().attr(attribute).map(String::from)).collect())
}

/// The token that a page was expected to carry.
#[derive(Clone, Copy, Debug, PartialEq, Eq)]
pub enum MissingToken {
    /// The `execution` value of the sign-in form.
    Execution,
    /// The security token of the portal page.
    SecurityToken,
}

/// The selector of the sign-in form's `execution` field.
pub open spec fn execution_selector() -> Seq<char> {
    "input[name=\"execution\"]"@
}

/// The selector of the sign-in form's `lt` field.
pub open spec fn ticket_selector() -> Seq<char> {
    "input[name=\"lt\"]"@
}

/// The selector of the portal page's security token.
pub open spec fn security_token_selector() -> Seq<char> {
    "meta[name=\"_csrf\"]"@
}

/// The attribute that holds a form field's value.
pub open spec fn value_attribute() -> Seq<char> {
    "value"@
}

/// The attribute that holds a meta element's content.
pub open spec fn content_attribute() -> Seq<char> {
    "content"@
}

/// The value that counts: that of the first matching element. Where that
/// element lacks the attribute there is none, whatever later elements hold; nor
/// is there one where nothing matches or the selector was not accepted.
pub open spec fn value_found(found: Option<Seq<Option<Seq<char>>>>) -> Option<Seq<char>> {
    match found {
        Some(values) => if values.len() > 0 {
            values[0]
        } else {
            None
        },
        None => None,
    }
}

/// The sign-in tokens for what was found under the two selectors: `execution`
/// is needed, `lt` is passed on if it is there.
pub open spec fn login_tokens(
    execution: Option<Seq<Option<Seq<char>>>>,
    ticket: Option<Seq<Option<Seq<char>>>>,
) -> Result<(Seq<char>, Option<Seq<char>>), MissingToken> {
    match value_found(execution) {
        Some(value) => Ok((value, value_found(ticket))),
        None => Err(MissingToken::Execution),
    }
}

/// The security token for what was found under its selector.
pub open spec fn security_token(found: Option<Seq<Option<Seq<char>>>>) -> Result<
    Seq<char>,
    MissingToken,
> {
    match value_found(found) {
        Some(value) => Ok(value),
        None => Err(MissingToken::SecurityToken),
    }
}

/// The sign-in tokens in the page `html`.
pub open spec fn login_tokens_in(html: Seq<char>) -> Result<
    (Seq<char>, Option<Seq<char>>),
    MissingToken,
> {
    login_tokens(
        matching_attributes(html, execution_selector(), value_attribute()),
        matching_attributes(html, ticket_selector(), value_attribute()),
    )
}

/// The security token in the page `html`.
pub open spec fn security_token_in(html: Seq<char>) -> Result<Seq<char>, MissingToken> {
    security_token(matching_attributes(html, security_token_selector(), content_attribute()))
}

/// What a pair of sign-in tokens holds.
pub open spec fn tokens_view(tokens: Result<(String, Option<String>), MissingToken>) -> Result<
    (Seq<char>, Option<Seq<char>>),
    MissingToken,
> {
    match tokens {
        Ok((execution, ticket)) => Ok((execution@, ticket.deep_view())),
        Err(missing) => Err(missing),
    }
}

/// What a security token holds.
pub open spec fn token_view(token: Result<String, MissingToken>) -> Result<
    Seq<char>,
    MissingToken,
> {
    match token {
        Ok(value) => Ok(value@),
        Err(missing) => Err(missing),
    }
}

/// The value that counts among what was found: that of the first match.
pub fn first_value(found: &Option<Vec<Option<String>>>) -> (value: Option<String>)
    ensures
        value.deep_view() == value_found(found.deep_view()),
{
    match found {
        Some(values) => {
            if values.len() > 0 {
                match &values[0] {
                    Some(text) => Some(text.clone()),
                    None => None,
                }
            } else {
                None
            }
        },
        None => None,
    }
}

/// Picks the sign-in tokens from what was found under the two selectors.
pub fn login_tokens_from(
    execution: &Option<Vec<Option<String>>>,
    ticket: &Option<Vec<Option<String>>>,
) -> (tokens: Result<(String, Option<String>), MissingToken>)
    ensures
        tokens_view(tokens) == login_tokens(execution.deep_view(), ticket.deep_view()),
{
    match first_value(execution) {
        Some(value) => Ok((value, first_value(ticket))),
        None => Err(MissingToken::Execution),
    }
}

/// Picks the security token from what was found under its selector.
pub fn security_token_from(found: &Option<Vec<Option<String>>>) -> (token: Result<
    String,
    MissingToken,
>)
    ensures
        token_view(token) == security_token(found.deep_view()),
{
    match first_value(found) {
        Some(value) => Ok(value),
        None => Err(MissingToken::SecurityToken),
    }
}

/// Finds the hidden values of the sign-in form in `html`: `execution`, without
/// which the sign-in cannot go on, and `lt`, which the provider may leave out.
pub fn extract_cas_tokens(html: &str) -> (tokens: Result<(String, Option<String>), MissingToken>)
    ensures
        tokens_view(tokens) == login_tokens_in(html@),
{
    let execution = attributes_of_matches(html, "input[name=\"execution\"]", "value");
    let ticket = attributes_of_matches(html, "input[name=\"lt\"]", "value");
    login_tokens_from(&execution, &ticket)
}

/// Finds the security token in the portal page `html`.
pub fn extract_csrf(html: &str) -> (token: Result<String, MissingToken>)
    ensures
        token_view(token) == security_token_in(html@),
{
    let found = attributes_of_matches(html, "meta[name=\"_csrf\"]", "content");
    security_token_from(&found)
}

} // verus!
