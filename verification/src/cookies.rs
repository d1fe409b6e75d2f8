//! The cookie store adapter: from a jar's cookies for the portal to the flat
//! text in which they are kept, `name=value; name2=value2`, and from that text
//! back to a fresh jar.
//!
//! The jar is that of the `reqwest` crate. This module decides what is put into
//! it and for which origin, and says what the jar then keeps and sends for the
//! portal as far as that does not hang on the time. It never judges whether a
//! cookie is still good: only the portal's answer to a later request can tell.
use crate::endpoints::PORTAL_URL;
use crate::text::{
    followed_by, index_of, is_space, join, lacks, lemma_index_behind, lemma_split_at_first,
    lemma_split_without_separator, occurs_at, split, split_text, trimmed,
};
use vstd::prelude::*;

verus! {

/// What stands between two cookies in the flat text: a semicolon and a space.
pub open spec fn pair_separator() -> Seq<char> {
    seq![';', ' ']
}

/// What is written behind each pair so that the jar keeps it for the whole
/// portal: its domain and the root path.
pub open spec fn portal_scope() -> Seq<char> {
    "; Domain=sis-portal.uom.gr; Path=/"@
}

/// Whether a piece of the flat text holds anything.
pub open spec fn holds_text(piece: Seq<char>) -> bool {
    piece.len() > 0
}

/// The `name=value` pairs in `cookies`: its pieces between separators, but for
/// the empty ones, in their order.
pub open spec fn pairs_in(cookies: Seq<char>) -> Seq<Seq<char>> {
    split(cookies, pair_separator()).filter(|piece: Seq<char>| holds_text(piece))
}

/// The cookie that is put into the jar for one pair.
pub open spec fn directive_for(pair: Seq<char>) -> Seq<char> {
    pair + portal_scope()
}

/// The cookies that are put into a fresh jar for `cookies`, in their order: one
/// for each pair, scoped to the portal.
pub open spec fn directives_for(cookies: Seq<char>) -> Seq<Seq<char>> {
    pairs_in(cookies).map_values(|pair: Seq<char>| directive_for(pair))
}

/// The flat text of `pairs`.
pub open spec fn flat_text(pairs: Seq<Seq<char>>) -> Seq<char> {
    join(pairs, pair_separator())
}

/// Whether `pair` can stand in the flat text as one pair: it holds something
/// and the separator stands nowhere in it.
pub open spec fn is_single_pair(pair: Seq<char>) -> bool {
    &&& holds_text(pair)
    &&& forall|at: int| !occurs_at(pair, pair_separator(), at)
}

/// The cookie jar of `reqwest`. Of what is in it, only the names and values of
/// its cookies are spoken of here.
#[verifier::external_type_specification]
#[verifier::external_body]
pub struct ExJar(reqwest::cookie::Jar);

/// A cookie's name and its value.
pub type Pair = (Seq<char>, Seq<char>);

/// The name and value of every cookie in `jar` that it would send to `origin`
/// were none of its cookies to run out: those whose domain and path match the
/// URL that `origin` is, and whose flags allow its scheme. None where `origin`
/// is no URL.
pub uninterp spec fn jar_keeps(jar: reqwest::cookie::Jar, origin: Seq<char>) -> Set<Pair>;

/// Those of [`jar_keeps`] whose cookie was stored without an end to its life,
/// so that the jar sends them to `origin` at any time.
pub uninterp spec fn jar_sends(jar: reqwest::cookie::Jar, origin: Seq<char>) -> Set<Pair>;

/// The name and value that the jar reads from the cookie text `directive`, as
/// `Cookie::parse` of the `cookie` crate does: of what stands before the first
/// `;`, the part before the first `=` and the part behind it, each without
/// white space at its ends. None where there is no `=` or no name.
pub open spec fn set_cookie_pair(directive: Seq<char>) -> Option<Pair> {
    let piece = directive.take(index_of(directive, ';'));
    let cut = index_of(piece, '=');
    if cut == piece.len() {
        None
    } else {
        let name = trimmed(piece.take(cut));
        let value = trimmed(piece.skip(cut + 1));
        if name.len() == 0 {
            None
        } else {
            Some((name, value))
        }
    }
}

/// Whether `directive` is one piece without `;`, followed by the portal's
/// scope: a cookie for the whole portal, with no other attribute.
pub open spec fn is_scoped_pair(directive: Seq<char>) -> bool {
    let scope = portal_scope();
    &&& directive.len() >= scope.len()
    &&& directive.skip(directive.len() - scope.len()) == scope
    &&& lacks(directive.take(directive.len() - scope.len()), ';')
}

/// Whether the cookie read from a text has the name of `pair`.
pub open spec fn names_again(read: Option<Pair>, pair: Pair) -> bool {
    read matches Some(other) && other.0 == pair.0
}

/// How a pair stands in a cookie header: the name, `=`, the value.
pub open spec fn pair_text(pair: Pair) -> Seq<char> {
    pair.0 + seq!['='] + pair.1
}

/// Whether every character of `text` is a printing ASCII character or a
/// space, so that it can stand in a header.
pub open spec fn is_printable(text: Seq<char>) -> bool {
    forall|i: int| 0 <= i < text.len() ==> 0x20 <= (#[trigger] text[i]) as u32 <= 0x7E
}

/// Whether every name and value in `pairs` is printable.
pub open spec fn all_printable(pairs: Set<Pair>) -> bool {
    forall|pair: Pair| #[trigger] pairs.contains(pair) ==> is_printable(pair.0) && is_printable(pair.1)
}

/// Whether `text` is the header of the pairs `sent`: there is at least one,
/// each is among `keeps`, none of `sends` is missing, and `text` is their flat
/// text.
pub open spec fn is_text_of(sent: Seq<Pair>, keeps: Set<Pair>, sends: Set<Pair>, text: Seq<char>) -> bool {
    &&& sent.len() > 0
    &&& forall|i: int| 0 <= i < sent.len() ==> keeps.contains(#[trigger] sent[i])
    &&& forall|pair: Pair| #[trigger] sends.contains(pair) ==> sent.contains(pair)
    &&& text == flat_text(sent.map_values(|pair: Pair| pair_text(pair)))
}

/// Whether `text` tells of a jar that keeps `keeps` for an origin and always
/// sends `sends`. A text that holds anything is the flat text of pairs among
/// `keeps`, in some order, with all of `sends` among them. The empty text
/// stands where there is nothing that is always sent, or where something that
/// is kept cannot stand in a header.
pub open spec fn tells_of(text: Seq<char>, keeps: Set<Pair>, sends: Set<Pair>) -> bool {
    if text.len() > 0 {
        exists|sent: Seq<Pair>| is_text_of(sent, keeps, sends, text)
    } else {
        (forall|pair: Pair| !sends.contains(pair)) || !all_printable(keeps)
    }
}

/// Whether the `at`-th of `directives` is a cookie with the pair `pair`.
pub open spec fn fed_at(directives: Seq<Seq<char>>, at: int, pair: Pair) -> bool {
    0 <= at < directives.len() && set_cookie_pair(directives[at]) == Some(pair)
}

/// The pairs of the cookies among `directives`.
pub open spec fn pairs_fed(directives: Seq<Seq<char>>) -> Set<Pair> {
    Set::new(|pair: Pair| exists|at: int| fed_at(directives, at, pair))
}

/// Whether handing `directive` to a jar can take away a cookie for the whole
/// portal that has the pair `pair`: it has the same name, and is not that very
/// cookie again.
pub open spec fn conflicts(directive: Seq<char>, pair: Pair) -> bool {
    names_again(set_cookie_pair(directive), pair) && !(is_scoped_pair(directive)
        && set_cookie_pair(directive) == Some(pair))
}

/// Whether the `at`-th of `directives` is a cookie for the whole portal with the
/// pair `pair`, and none behind it can take it away again.
pub open spec fn stays_from(directives: Seq<Seq<char>>, at: int, pair: Pair) -> bool {
    &&& 0 <= at < directives.len()
    &&& is_scoped_pair(directives[at])
    &&& set_cookie_pair(directives[at]) == Some(pair)
    &&& forall|later: int| at < later < directives.len() ==> !conflicts(#[trigger] directives[later], pair)
}

/// What a fresh jar that was handed `directives`, each as a cookie from the
/// portal, keeps and sends for the portal: it keeps no pair but theirs, and it
/// always sends the pair of each cookie for the whole portal that none behind
/// it takes away.
pub open spec fn filled_from(keeps: Set<Pair>, sends: Set<Pair>, directives: Seq<Seq<char>>) -> bool {
    &&& keeps.subset_of(pairs_fed(directives))
    &&& forall|at: int, pair: Pair| #[trigger] stays_from(directives, at, pair) ==> sends.contains(pair)
}

/// A jar without cookies: `Jar::default` of `reqwest`, whose store starts
/// empty, so that it keeps and sends nothing for any origin.
#[verifier::external_body]
fn empty_jar() -> (jar: reqwest::cookie::Jar)
    ensures
        forall|origin: Seq<char>| #[trigger] jar_keeps(jar, origin) == Set::<Pair>::empty(),
        forall|origin: Seq<char>| #[trigger] jar_sends(jar, origin) == Set::<Pair>::empty(),
{
    reqwest::cookie::Jar::default()
}

/// Hands `directive` to `Jar::add_cookie_str` as a cookie that came from
/// `origin`. Whether the jar keeps it is the jar's decision and depends on the
/// time. The store changes no entry but the one of that cookie's domain, path
/// and name, so whatever it decides:
/// - it keeps no pair for `origin` that it did not keep before, but for the
///   pair of that cookie;
/// - a text that is no cookie changes nothing;
/// - what it always sent to `origin` under another name, it still sends.
///
/// And a cookie for the whole portal that came from the portal, with no other
/// attribute, is stored without an end to its life: the jar always sends it
/// there afterwards. An `origin` that is no URL leaves the jar alone.
#[verifier::external_body]
fn put_cookie(jar: &mut reqwest::cookie::Jar, directive: &str, origin: &str)
    ensures
        jar_keeps(*final(jar), origin@).subset_of(
            (match set_cookie_pair(directive@) {
                Some(pair) => jar_keeps(*old(jar), origin@).insert(pair),
                None => jar_keeps(*old(jar), origin@),
            }),
        ),
        set_cookie_pair(directive@) is None ==> jar_keeps(*final(jar), origin@) == jar_keeps(
            *old(jar),
            origin@,
        ) && jar_sends(*final(jar), origin@) == jar_sends(*old(jar), origin@),
        forall|pair: Pair| #[trigger]
            jar_sends(*old(jar), origin@).contains(pair) && !names_again(
                set_cookie_pair(directive@),
                pair,
            ) ==> jar_sends(*final(jar), origin@).contains(pair),
        origin@ == PORTAL_URL@ && is_scoped_pair(directive@) && set_cookie_pair(directive@) is Some
            ==> jar_sends(*final(jar), origin@).contains(set_cookie_pair(directive@)->Some_0),
{
    if let Ok(url) = url::Url::parse(origin) {
        jar.add_cookie_str(directive, &url);
    }
}

/// The cookie header that `jar` would send to `origin`, from `CookieStore::cookies`
/// of `reqwest`. Which of its cookies the jar sends depends on the time, and
/// their order is the jar's and may differ from run to run. What holds
/// whatever it sends:
/// - a header is the flat text of at least one pair, each as name, `=`, value;
///   each of them is kept for `origin`, and none that is always sent is
///   missing;
/// - there is no header only where nothing is always sent, or where a name or
///   value that is kept holds a character that cannot stand in a header.
#[verifier::external_body]
fn cookie_header(jar: &reqwest::cookie::Jar, origin: &str) -> (header: Option<String>)
    ensures
        header matches Some(text) ==> text@.len() > 0 && exists|sent: Seq<Pair>|
            is_text_of(sent, jar_keeps(*jar, origin@), jar_sends(*jar, origin@), text@),
        header is None ==> (forall|pair: Pair| !jar_sends(*jar, origin@).contains(pair))
            || !all_printable(jar_keeps(*jar, origin@)),
{
    let url = url::Url::parse(origin).ok()?;
    let header = reqwest::cookie::CookieStore::cookies(jar, &url)?;
    header.to_str().ok().map(String::from)
}

/// The separator between two cookies.
pub fn separator_text() -> (text: &'static str)
    ensures
        text@ == pair_separator(),
{
    proof {
        reveal_strlit("; ");
    }
    let text = "; ";
    assert(text@ =~= pair_separator());
    text
}

/// The `name=value` pairs in `cookies`, in their order.
pub fn cookie_pairs(cookies: &str) -> (pairs: Vec<String>)
    ensures
        pairs.deep_view() == pairs_in(cookies@),
{
    let pieces = split_text(cookies, separator_text());
    let ghost keep = |piece: Seq<char>| holds_text(piece);
    let mut pairs: Vec<String> = Vec::new();
    let mut taken: usize = 0;
    proof {
        reveal_with_fuel(Seq::filter, 1);
        assert(pieces.deep_view().take(0) =~= Seq::<Seq<char>>::empty());
        assert(pairs.deep_view() =~= Seq::<Seq<char>>::empty());
    }
    while taken < pieces.len()
        invariant
            taken <= pieces.len(),
            keep == |piece: Seq<char>| holds_text(piece),
            pairs.deep_view() == pieces.deep_view().take(taken as int).filter(keep),
        decreases pieces.len() - taken,
    {
        let piece = &pieces[taken];
        let ghost before = pairs.deep_view();
        proof {
            let seen = pieces.deep_view().take(taken as int);
            assert(pieces.deep_view().take(taken + 1) =~= seen.push(piece@));
            seen.lemma_filter_push(piece@, keep);
        }
        if !piece.as_str().is_empty() {
            pairs.push(piece.clone());
            assert(pairs.deep_view() =~= before.push(piece@));
        }
        taken = taken + 1;
    }
    assert(pieces.deep_view().take(taken as int) =~= pieces.deep_view());
    pairs
}

/// The cookies to put into a fresh jar for `cookies`: one for each of its pairs,
/// scoped to the portal's domain and root path. An empty text gives none.
pub fn cookie_directives(cookies: &str) -> (directives: Vec<String>)
    ensures
        directives.deep_view() == directives_for(cookies@),
{
    let pairs = cookie_pairs(cookies);
    let mut directives: Vec<String> = Vec::new();
    let mut taken: usize = 0;
    while taken < pairs.len()
        invariant
            taken <= pairs.len(),
            directives.deep_view() == pairs.deep_view().take(taken as int).map_values(
                |pair: Seq<char>| directive_for(pair),
            ),
        decreases pairs.len() - taken,
    {
        let directive = followed_by(pairs[taken].as_str(), "; Domain=sis-portal.uom.gr; Path=/");
        let ghost before = directives.deep_view();
        directives.push(directive);
        proof {
            assert(directives.deep_view() =~= before.push(directive@));
            assert(pairs.deep_view().take(taken + 1) =~= pairs.deep_view().take(taken as int).push(
                pairs[taken as int]@,
            ));
        }
        taken = taken + 1;
    }
    assert(pairs.deep_view().take(taken as int) =~= pairs.deep_view());
    directives
}

/// A fresh jar that has been handed each of `directives`, in their order, as a
/// cookie that came from the portal. For the portal it keeps no pair but those
/// of the cookies among `directives`, and it always sends the pair of each
/// cookie for the whole portal that none behind it takes away.
pub fn fill_jar(directives: &Vec<String>) -> (jar: reqwest::cookie::Jar)
    ensures
        filled_from(
            jar_keeps(jar, PORTAL_URL@),
            jar_sends(jar, PORTAL_URL@),
            directives.deep_view(),
        ),
{
    let mut jar = empty_jar();
    let mut taken: usize = 0;
    let ghost all = directives.deep_view();
    while taken < directives.len()
        invariant
            taken <= directives.len(),
            all == directives.deep_view(),
            filled_from(
                jar_keeps(jar, PORTAL_URL@),
                jar_sends(jar, PORTAL_URL@),
                all.take(taken as int),
            ),
        decreases directives.len() - taken,
    {
        let ghost kept = jar_keeps(jar, PORTAL_URL@);
        let ghost sent = jar_sends(jar, PORTAL_URL@);
        put_cookie(&mut jar, directives[taken].as_str(), PORTAL_URL);
        proof {
            let seen = all.take(taken as int);
            let next = all.take(taken + 1);
            let handed = all[taken as int];
            assert(next[taken as int] == handed);
            assert forall|pair: Pair| jar_keeps(jar, PORTAL_URL@).contains(pair) implies pairs_fed(
                next,
            ).contains(pair) by {
                if kept.contains(pair) {
                    let at = choose|at: int| fed_at(seen, at, pair);
                    assert(fed_at(next, at, pair));
                } else {
                    assert(fed_at(next, taken as int, pair));
                }
            }
            assert forall|at: int, pair: Pair| #[trigger] stays_from(next, at, pair) implies jar_sends(
                jar,
                PORTAL_URL@,
            ).contains(pair) by {
                if at < taken {
                    assert(seen[at] == next[at]);
                    assert forall|later: int| at < later < seen.len() implies !conflicts(
                        #[trigger] seen[later],
                        pair,
                    ) by {
                        assert(seen[later] == next[later]);
                    }
                    assert(stays_from(seen, at, pair));
                    assert(sent.contains(pair));
                    assert(!conflicts(next[taken as int], pair));
                }
            }
        }
        taken = taken + 1;
    }
    assert(all.take(taken as int) =~= all);
    jar
}

/// A fresh jar for the flat text `cookies`: it has been handed the cookies of
/// [`cookie_directives`]. For the portal it keeps no pair but theirs, and it
/// always sends the pair of each piece without `;` whose name no later piece
/// takes up otherwise. A text without pairs gives an empty jar, and a client
/// built around it is simply turned away by the portal.
pub fn jar_from_cookies(cookies: &str) -> (jar: reqwest::cookie::Jar)
    ensures
        filled_from(
            jar_keeps(jar, PORTAL_URL@),
            jar_sends(jar, PORTAL_URL@),
            directives_for(cookies@),
        ),
{
    let directives = cookie_directives(cookies);
    fill_jar(&directives)
}

/// The flat text of the cookies that a jar holds for the portal: the header
/// that it would send there, and the empty text where it would send none.
pub open spec fn serialized_cookies(header: Option<Seq<char>>) -> Seq<char> {
    match header {
        Some(text) => text,
        None => Seq::empty(),
    }
}

/// The flat text for the cookie header that a jar would send to the portal, if
/// it would send one.
pub fn flat_cookies(header: Option<String>) -> (cookies: String)
    ensures
        cookies@ == serialized_cookies(header.deep_view()),
{
    match header {
        Some(text) => text,
        None => String::new(),
    }
}

/// The flat text of the cookies that `jar` sends to the portal now: pairs
/// that it keeps for the portal, each as name, `=`, value, with `; ` between
/// them, and none missing that it always sends; and the empty text where it
/// sends no header.
pub fn serialize_cookies(jar: &reqwest::cookie::Jar) -> (cookies: String)
    ensures
        tells_of(cookies@, jar_keeps(*jar, PORTAL_URL@), jar_sends(*jar, PORTAL_URL@)),
{
    let header = cookie_header(jar, PORTAL_URL);
    flat_cookies(header)
}

/// Reading a flat text back gives the pairs it was written from, one for one
/// and in their order, whenever each of them can stand in the text as one pair.
pub proof fn lemma_pairs_of_flat_text(pairs: Seq<Seq<char>>)
    requires
        forall|i: int| 0 <= i < pairs.len() ==> is_single_pair(#[trigger] pairs[i]),
    ensures
        pairs_in(flat_text(pairs)) == pairs,
    decreases pairs.len(),
{
    let sep = pair_separator();
    let keep = |piece: Seq<char>| holds_text(piece);
    let text = flat_text(pairs);
    reveal_with_fuel(Seq::filter, 1);
    if pairs.len() == 0 {
        assert forall|at: int| !occurs_at(text, sep, at) by {}
        lemma_split_without_separator(text, sep);
        Seq::<Seq<char>>::empty().lemma_filter_prepend(text, keep);
        assert(seq![text] + Seq::<Seq<char>>::empty() =~= seq![text]);
        assert(pairs_in(text) =~= pairs);
    } else if pairs.len() == 1 {
        assert(is_single_pair(pairs[0]));
        lemma_split_without_separator(text, sep);
        Seq::<Seq<char>>::empty().lemma_filter_prepend(text, keep);
        assert(seq![text] + Seq::<Seq<char>>::empty() =~= seq![text]);
        assert(pairs_in(text) =~= pairs);
    } else {
        let first = pairs[0];
        let others = pairs.skip(1);
        let tail = flat_text(others);
        assert(is_single_pair(first));
        assert(text == first + sep + tail);
        assert(text.subrange(first.len() as int, (first.len() + sep.len()) as int) =~= sep);
        assert forall|earlier: int| 0 <= earlier < first.len() implies !occurs_at(
            text,
            sep,
            earlier,
        ) by {
            if earlier + sep.len() <= first.len() {
                assert(text.subrange(earlier, earlier + sep.len()) =~= first.subrange(
                    earlier,
                    earlier + sep.len(),
                ));
                assert(!occurs_at(first, sep, earlier));
            } else {
                assert(text.subrange(earlier, earlier + sep.len())[1] == ';');
                assert(sep[1] == ' ');
            }
        }
        lemma_split_at_first(text, sep, first.len() as int);
        assert(text.take(first.len() as int) =~= first);
        assert(text.skip((first.len() + sep.len()) as int) =~= tail);
        assert forall|i: int| 0 <= i < others.len() implies is_single_pair(
            #[trigger] others[i],
        ) by {
            assert(others[i] == pairs[i + 1]);
        }
        lemma_pairs_of_flat_text(others);
        split(tail, sep).lemma_filter_prepend(first, keep);
        assert(seq![first] + others =~= pairs);
    }
}

/// Whether every character of `text` is a printing ASCII character other than
/// `;`: no space, nothing that ends a cookie's first piece.
pub open spec fn is_plain(text: Seq<char>) -> bool {
    forall|i: int|
        0 <= i < text.len() ==> 0x21 <= (#[trigger] text[i]) as u32 <= 0x7E && text[i] != ';'
}

/// Whether `pair` can be written as a cookie and read back as it is: it has a
/// name, the name holds no `=`, and name and value are plain.
pub open spec fn is_plain_pair(pair: Pair) -> bool {
    &&& pair.0.len() > 0
    &&& is_plain(pair.0)
    &&& lacks(pair.0, '=')
    &&& is_plain(pair.1)
}

/// The cookie that is put into the jar for a plain pair is one for the whole
/// portal, the jar reads the pair back from it as it is, and the pair's text
/// can stand in the flat text as one pair.
pub proof fn lemma_directive_reads_back(pair: Pair)
    requires
        is_plain_pair(pair),
    ensures
        is_scoped_pair(directive_for(pair_text(pair))),
        set_cookie_pair(directive_for(pair_text(pair))) == Some(pair),
        is_single_pair(pair_text(pair)),
{
    reveal_strlit("; Domain=sis-portal.uom.gr; Path=/");
    let scope = portal_scope();
    let name = pair.0;
    let value = pair.1;
    let text = pair_text(pair);
    let directive = directive_for(text);
    assert(scope.len() > 0 && scope[0] == ';');
    assert forall|i: int| 0 <= i < text.len() implies text[i] != ';' by {
        if i < name.len() {
            assert(text[i] == name[i]);
        } else if i > name.len() {
            assert(text[i] == value[i - name.len() - 1]);
        }
    }
    lemma_index_behind(text, scope, ';');
    let piece = directive.take(index_of(directive, ';'));
    assert(piece =~= text);
    assert(text =~= name + (seq!['='] + value));
    lemma_index_behind(name, seq!['='] + value, '=');
    assert(piece.take(name.len() as int) =~= name);
    assert(piece.skip((name.len() + 1) as int) =~= value);
    assert(!is_space(name[0]) && !is_space(name.last()));
    assert(trimmed(name) == name);
    if value.len() > 0 {
        assert(!is_space(value[0]) && !is_space(value.last()));
    }
    assert(trimmed(value) == value);
    assert(directive.skip(directive.len() - scope.len()) =~= scope);
    assert(directive.take(directive.len() - scope.len()) =~= text);
    assert forall|at: int| !occurs_at(text, pair_separator(), at) by {
        if occurs_at(text, pair_separator(), at) {
            assert(text.subrange(at, at + 2)[0] == ';');
        }
    }
}

/// The portal round trip. Take a jar that keeps for the portal only cookies
/// without an end to their life, with plain names and values and no name
/// twice; write its cookies as flat text; fill a fresh jar from that text;
/// write that jar's cookies. The second text holds the same pairs as the
/// first, in whatever order, and they are the pairs of the first jar.
///
/// `pairs` is what the first jar keeps and always sends for the portal,
/// `first` its text; `keeps` and `sends` are what the jar filled from `first`
/// keeps and always sends, `second` its text.
pub proof fn lemma_portal_round_trip(
    pairs: Set<Pair>,
    first: Seq<char>,
    keeps: Set<Pair>,
    sends: Set<Pair>,
    second: Seq<char>,
)
    requires
        forall|pair: Pair| #[trigger] pairs.contains(pair) ==> is_plain_pair(pair),
        forall|a: Pair, b: Pair|
            #![trigger pairs.contains(a), pairs.contains(b)]
            pairs.contains(a) && pairs.contains(b) && a.0 == b.0 ==> a == b,
        tells_of(first, pairs, pairs),
        filled_from(keeps, sends, directives_for(first)),
        tells_of(second, keeps, sends),
    ensures
        pairs_in(second).to_set() == pairs_in(first).to_set(),
        pairs_in(first).to_set() == pairs.map(|pair: Pair| pair_text(pair)),
{
    let write = |pair: Pair| pair_text(pair);
    let scoped = |pair: Seq<char>| directive_for(pair);
    let directives = directives_for(first);
    assert forall|pair: Pair| #[trigger] pairs.contains(pair) implies is_printable(pair.0)
        && is_printable(pair.1) by {
        assert(is_plain_pair(pair));
    }
    if first.len() == 0 {
        assert(forall|pair: Pair| !pairs.contains(pair));
        lemma_pairs_of_flat_text(Seq::<Seq<char>>::empty());
        assert(first =~= flat_text(Seq::<Seq<char>>::empty()));
        assert(pairs_in(first) =~= Seq::<Seq<char>>::empty());
        assert(directives =~= Seq::<Seq<char>>::empty());
        assert forall|pair: Pair| !keeps.contains(pair) by {
            if keeps.contains(pair) {
                assert(pairs_fed(directives).contains(pair));
            }
        }
        if second.len() > 0 {
            let sent = choose|sent: Seq<Pair>| is_text_of(sent, keeps, sends, second);
            assert(keeps.contains(sent[0]));
        }
        assert(second =~= first);
        assert(pairs_in(first).to_set() =~= pairs.map(write));
    } else {
        let sent1 = choose|sent: Seq<Pair>| is_text_of(sent, pairs, pairs, first);
        let texts1 = sent1.map_values(write);
        assert forall|i: int| 0 <= i < texts1.len() implies is_single_pair(#[trigger] texts1[i]) by {
            assert(pairs.contains(sent1[i]));
            lemma_directive_reads_back(sent1[i]);
        }
        lemma_pairs_of_flat_text(texts1);
        assert(pairs_in(first) == texts1);
        assert(directives.len() == sent1.len());
        assert forall|i: int| 0 <= i < sent1.len() implies is_scoped_pair(#[trigger] directives[i])
            && set_cookie_pair(directives[i]) == Some(sent1[i]) && pairs.contains(sent1[i]) by {
            assert(pairs.contains(sent1[i]));
            lemma_directive_reads_back(sent1[i]);
            assert(directives[i] == directive_for(texts1[i]));
        }
        assert forall|pair: Pair| keeps.contains(pair) implies pairs.contains(pair) by {
            assert(pairs_fed(directives).contains(pair));
            let at = choose|at: int| fed_at(directives, at, pair);
            assert(set_cookie_pair(directives[at]) == Some(sent1[at]));
        }
        assert forall|pair: Pair| pairs.contains(pair) implies sends.contains(pair) by {
            assert(sent1.contains(pair));
            let at = choose|at: int| 0 <= at < sent1.len() && sent1[at] == pair;
            assert forall|later: int| at < later < directives.len() implies !conflicts(
                #[trigger] directives[later],
                pair,
            ) by {
                assert(set_cookie_pair(directives[later]) == Some(sent1[later]));
                assert(pairs.contains(sent1[later]));
            }
            assert(stays_from(directives, at, pair));
        }
        assert(pairs.contains(sent1[0]));
        assert(sends.contains(sent1[0]));
        assert forall|pair: Pair| #[trigger] keeps.contains(pair) implies is_printable(pair.0)
            && is_printable(pair.1) by {
            assert(pairs.contains(pair));
        }
        assert(second.len() > 0);
        let sent2 = choose|sent: Seq<Pair>| is_text_of(sent, keeps, sends, second);
        let texts2 = sent2.map_values(write);
        assert forall|i: int| 0 <= i < texts2.len() implies is_single_pair(#[trigger] texts2[i]) by {
            assert(keeps.contains(sent2[i]));
            lemma_directive_reads_back(sent2[i]);
        }
        lemma_pairs_of_flat_text(texts2);
        assert(pairs_in(second) == texts2);
        assert forall|text: Seq<char>| texts1.to_set().contains(text) <==> texts2.to_set().contains(
            text,
        ) by {
            if texts1.to_set().contains(text) {
                let i = choose|i: int| 0 <= i < texts1.len() && texts1[i] == text;
                assert(pairs.contains(sent1[i]));
                assert(sent2.contains(sent1[i]));
                let j = choose|j: int| 0 <= j < sent2.len() && sent2[j] == sent1[i];
                assert(texts2[j] == text);
            }
            if texts2.to_set().contains(text) {
                let j = choose|j: int| 0 <= j < texts2.len() && texts2[j] == text;
                assert(keeps.contains(sent2[j]));
                assert(sent1.contains(sent2[j]));
                let i = choose|i: int| 0 <= i < sent1.len() && sent1[i] == sent2[j];
                assert(texts1[i] == text);
            }
        }
        assert(texts2.to_set() =~= texts1.to_set());
        assert forall|text: Seq<char>| texts1.to_set().contains(text) <==> pairs.map(write).contains(
            text,
        ) by {
            if texts1.to_set().contains(text) {
                let i = choose|i: int| 0 <= i < texts1.len() && texts1[i] == text;
                assert(pairs.contains(sent1[i]));
                assert(write(sent1[i]) == text);
            }
            if pairs.map(write).contains(text) {
                let pair = choose|pair: Pair| pairs.contains(pair) && write(pair) == text;
                assert(sent1.contains(pair));
                let i = choose|i: int| 0 <= i < sent1.len() && sent1[i] == pair;
                assert(texts1[i] == text);
            }
        }
        assert(texts1.to_set() =~= pairs.map(write));
    }
}

} // verus!
