//! Pages: how one is addressed, and what is asked of it.

use crate::client::{document_of, Wikipedia};
use crate::error::{outcome, Error, ErrorView};
use crate::http;
use crate::http::HttpClient;
use crate::json::{
    element_of, get_element, get_member, get_number, get_string, lemma_parts_are_well_formed,
    lookup, member_of, members_view, number_of, string_of, text_before, Json, JsonView,
};
use crate::images::Iter;
use crate::params::{extend, param, ParamsView};
use crate::text::same_text;
use vstd::prelude::*;
use vstd::std_specs::cmp::PartialEqSpecImpl;

verus! {

/// How a page is addressed: by its title or by its page id, never both.
#[derive(Debug)]
pub enum TitlePageId {
    Title(String),
    PageId(String),
}

impl TitlePageId {
    /// The name and the value of the parameter that addresses the page.
    pub open spec fn spec_query_param(&self) -> (Seq<char>, Seq<char>) {
        match self {
            TitlePageId::Title(title) => ("titles"@, title@),
            TitlePageId::PageId(pageid) => ("pageids"@, pageid@),
        }
    }

    /// The parameter that addresses the page.
    pub fn query_param(&self) -> (p: (String, String))
        ensures
            p.deep_view() == self.spec_query_param(),
    {
        match self {
            TitlePageId::Title(s) => ("titles".to_owned(), s.clone()),
            TitlePageId::PageId(s) => ("pageids".to_owned(), s.clone()),
        }
    }
}

/// The title that a document redirects to: `query.redirects[0].to`.
pub open spec fn redirect_target(doc: JsonView) -> Option<Seq<char>> {
    string_of(
        member_of(element_of(member_of(doc.member("query"@), "redirects"@), 0), "to"@),
    )
}

/// The page that a document is about: the first member of `query.pages`,
/// which in a well-formed document is the one with the least name.
pub open spec fn first_page(doc: JsonView) -> Option<JsonView> {
    match member_of(doc.member("query"@), "pages"@) {
        Some(JsonView::Object(pages)) => if pages.len() > 0 {
            Some(pages[0].1)
        } else {
            None
        },
        _ => None,
    }
}

/// The plain text of the page of a document: its `extract`.
pub open spec fn extract_of(doc: JsonView) -> Result<Seq<char>, ErrorView> {
    match string_of(member_of(first_page(doc), "extract"@)) {
        Some(text) => Ok(text),
        None => Err(ErrorView::JSONPathError),
    }
}

/// The HTML of the page of a document: `revisions[0].*`.
pub open spec fn html_of(doc: JsonView) -> Result<Seq<char>, ErrorView> {
    match string_of(member_of(element_of(member_of(first_page(doc), "revisions"@), 0), "*"@)) {
        Some(text) => Ok(text),
        None => Err(ErrorView::JSONPathError),
    }
}

/// The latitude and longitude of the page of a document, as binary64 bit
/// patterns: `coordinates[0].lat` and `.lon`. A page without coordinates
/// has none, which is no error.
pub open spec fn coordinates_of(doc: JsonView) -> Result<Option<(u64, u64)>, ErrorView> {
    match first_page(doc) {
        None => Err(ErrorView::JSONPathError),
        Some(page) => match element_of(page.member("coordinates"@), 0) {
            Some(JsonView::Object(place)) => match (
                number_of(lookup(place, "lat"@)),
                number_of(lookup(place, "lon"@)),
            ) {
                (Some(latitude), Some(longitude)) => Ok(Some((latitude, longitude))),
                _ => Err(ErrorView::JSONPathError),
            },
            _ => Ok(None),
        },
    }
}

/// The names and string values of `members`, or nothing where a value is
/// no string.
pub open spec fn string_pairs(members: Seq<(Seq<char>, JsonView)>) -> Option<ParamsView>
    decreases members.len(),
{
    if members.len() == 0 {
        Some(Seq::empty())
    } else {
        match (string_pairs(members.drop_last()), members.last().1.string()) {
            (Some(before), Some(value)) => Some(before.push((members.last().0, value))),
            _ => None,
        }
    }
}

/// The continuation token of a document: the pairs of its `continue`
/// object. A document without such an object has none: the listing is
/// exhausted. A value that is no string is a `JSONPathError`.
pub open spec fn continuation_of(doc: JsonView) -> Result<Option<ParamsView>, ErrorView> {
    match doc.member("continue"@) {
        Some(JsonView::Object(members)) => match string_pairs(members) {
            Some(pairs) => Ok(Some(pairs)),
            None => Err(ErrorView::JSONPathError),
        },
        _ => Ok(None),
    }
}

/// In a well-formed document the page that the document is about is the one
/// of `query.pages` whose name stands before the names of all the others.
pub proof fn law_first_page_has_the_least_name(doc: JsonView, pages: Seq<(Seq<char>, JsonView)>)
    requires
        doc.well_formed(),
        member_of(doc.member("query"@), "pages"@) == Some(JsonView::Object(pages)),
        pages.len() > 0,
    ensures
        first_page(doc) == Some(pages[0].1),
        forall|other: int|
            0 < other < pages.len() ==> text_before(pages[0].0, (#[trigger] pages[other]).0),
{
    lemma_parts_are_well_formed(doc, "query"@, 0);
    lemma_parts_are_well_formed(doc.member("query"@)->0, "pages"@, 0);
}

/// A document whose page has no `coordinates` member gives no coordinates,
/// and no error.
pub proof fn law_page_without_coordinates(doc: JsonView)
    requires
        first_page(doc) matches Some(page) && page.member("coordinates"@) is None,
    ensures
        coordinates_of(doc) == Ok::<Option<(u64, u64)>, ErrorView>(None),
{
}

/// Reads the plain text of the page of a document.
pub fn extract(doc: &Json) -> (r: Result<String, Error>)
    ensures
        outcome(r) == extract_of(doc@),
{
    match get_string(get_member(page_of(doc), "extract")) {
        Some(text) => Ok(text.to_owned()),
        None => Err(Error::JSONPathError),
    }
}

/// Reads the HTML of the page of a document.
pub fn html(doc: &Json) -> (r: Result<String, Error>)
    ensures
        outcome(r) == html_of(doc@),
{
    match get_string(
        get_member(get_element(get_member(page_of(doc), "revisions"), 0), "*"),
    ) {
        Some(text) => Ok(text.to_owned()),
        None => Err(Error::JSONPathError),
    }
}

/// Reads the coordinates of the page of a document.
pub fn coordinates(doc: &Json) -> (r: Result<Option<(u64, u64)>, Error>)
    ensures
        outcome(r) == coordinates_of(doc@),
{
    let page = match page_of(doc) {
        Some(page) => page,
        None => {
            return Err(Error::JSONPathError);
        },
    };
    let place = match get_element(page.get("coordinates"), 0) {
        Some(place) => place,
        None => {
            return Ok(None);
        },
    };
    if place.as_object().is_none() {
        return Ok(None);
    }
    match (get_number(place.get("lat")), get_number(place.get("lon"))) {
        (Some(latitude), Some(longitude)) => Ok(Some((latitude, longitude))),
        _ => Err(Error::JSONPathError),
    }
}

/// The page that a document is about.
pub fn page_of<'a>(doc: &'a Json) -> (r: Option<&'a Json>)
    ensures
        crate::json::found(r) == first_page(doc@),
{
    match get_member(doc.get("query"), "pages") {
        Some(pages) => match pages.as_object() {
            Some(members) => if members.len() > 0 {
                Some(&members[0].1)
            } else {
                None
            },
            None => None,
        },
        None => None,
    }
}

/// Reads the continuation token of a document.
pub fn continuation(doc: &Json) -> (r: Result<Option<Vec<(String, String)>>, Error>)
    ensures
        outcome(r) == continuation_of(doc@),
{
    let members = match doc.get("continue") {
        Some(token) => match token.as_object() {
            Some(members) => members,
            None => {
                return Ok(None);
            },
        },
        None => {
            return Ok(None);
        },
    };
    let ghost all = members_view(members@);
    let mut pairs: Vec<(String, String)> = Vec::new();
    let mut i: usize = 0;
    assert(pairs.deep_view() =~= Seq::empty());
    assert(all.subrange(0, 0) =~= Seq::empty());
    while i < members.len()
        invariant
            i <= members.len(),
            all == members_view(members@),
            doc@.member("continue"@) == Some(JsonView::Object(all)),
            string_pairs(all.subrange(0, i as int)) == Some(pairs.deep_view()),
        decreases members.len() - i,
    {
        let ghost upto = all.subrange(0, i + 1);
        assert(upto.drop_last() =~= all.subrange(0, i as int));
        assert(upto.last() == all[i as int]);
        match members[i].1.as_str() {
            Some(value) => {
                let ghost before = pairs.deep_view();
                pairs.push((members[i].0.clone(), value.to_owned()));
                assert(pairs.deep_view() =~= before.push((members@[i as int].0@, value@)));
            },
            None => {
                proof {
                    assert(all[i as int].1 == members@[i as int].1@);
                    lemma_string_pairs_fail(all, i as int);
                }
                return Err(Error::JSONPathError);
            },
        }
        i = i + 1;
    }
    assert(all.subrange(0, members.len() as int) =~= all);
    Ok(Some(pairs))
}

/// Members of which one has no string value give no pairs.
proof fn lemma_string_pairs_fail(members: Seq<(Seq<char>, JsonView)>, at: int)
    requires
        0 <= at < members.len(),
        members[at].1.string() is None,
    ensures
        string_pairs(members) is None,
    decreases members.len(),
{
    if at < members.len() - 1 {
        lemma_string_pairs_fail(members.drop_last(), at);
    }
}

/// The parameters of a listing of the images of a page, `page_size` to a
/// request.
pub open spec fn images_params(page_size: Seq<char>) -> ParamsView {
    seq![
        ("generator"@, "images"@),
        ("gimlimit"@, page_size),
        ("prop"@, "imageinfo"@),
        ("iiprop"@, "url"@),
    ]
}

/// What a request for images is asked of: the page, and the continuation
/// token of the answer before; the first request carries an empty
/// `continue` parameter in its place.
pub open spec fn images_target(address: (Seq<char>, Seq<char>), token: Option<ParamsView>) -> ParamsView {
    seq![address] + match token {
        Some(pairs) => pairs,
        None => seq![("continue"@, ""@)],
    }
}

/// What an answer to a request for images holds: the members of
/// `query.pages`, and the continuation token.
pub open spec fn images_page_of(answer: Result<JsonView, ErrorView>) -> Result<
    (Seq<(Seq<char>, JsonView)>, Option<ParamsView>),
    ErrorView,
> {
    match answer {
        Err(e) => Err(e),
        Ok(doc) => match (member_of(doc.member("query"@), "pages"@), continuation_of(doc)) {
            (Some(JsonView::Object(pages)), Ok(token)) => Ok((pages, token)),
            _ => Err(ErrorView::JSONPathError),
        },
    }
}

/// Reads an answer to a request for images.
pub fn images_page(answer: Result<Json, Error>) -> (r: Result<
    (Vec<(String, Json)>, Option<Vec<(String, String)>>),
    Error,
>)
    ensures
        outcome(r) == images_page_of(outcome(answer)),
{
    let doc = match answer {
        Ok(doc) => doc,
        Err(e) => {
            return Err(e);
        },
    };
    let token = match continuation(&doc) {
        Ok(token) => token,
        Err(e) => {
            return Err(e);
        },
    };
    let pages = match doc.take("query") {
        Some(query) => match query.take("pages") {
            Some(pages) => pages.into_members(),
            None => None,
        },
        None => None,
    };
    match pages {
        Some(members) => {
            assert(members.deep_view() =~= members_view(members@));
            Ok((members, token))
        },
        None => Err(Error::JSONPathError),
    }
}

/// How many redirects one operation follows.
pub const MAX_REDIRECTS: u32 = 1;

/// The parameters of the question for the plain text of a page.
pub open spec fn content_params() -> ParamsView {
    seq![
        ("prop"@, "extracts|revisions"@),
        ("explaintext"@, ""@),
        ("rvprop"@, "ids"@),
        ("redirects"@, ""@),
    ]
}

/// The parameters of the question for the plain text of a page.
pub fn content_operation() -> (operation: Vec<(String, String)>)
    ensures
        operation.deep_view() == content_params(),
{
    let operation = vec![
        param("prop", "extracts|revisions"),
        param("explaintext", ""),
        param("rvprop", "ids"),
        param("redirects", ""),
    ];
    assert(operation.deep_view() =~= content_params());
    operation
}

/// The parameters of the question for the HTML of a page.
pub open spec fn html_params() -> ParamsView {
    seq![
        ("prop"@, "revisions"@),
        ("rvprop"@, "content"@),
        ("rvlimit"@, "1"@),
        ("rvparse"@, ""@),
        ("redirects"@, ""@),
    ]
}

/// The parameters of the question for the HTML of a page.
pub fn html_operation() -> (operation: Vec<(String, String)>)
    ensures
        operation.deep_view() == html_params(),
{
    let operation = vec![
        param("prop", "revisions"),
        param("rvprop", "content"),
        param("rvlimit", "1"),
        param("rvparse", ""),
        param("redirects", ""),
    ];
    assert(operation.deep_view() =~= html_params());
    operation
}

/// The parameters of the question for the plain text of the introduction of a page.
pub open spec fn summary_params() -> ParamsView {
    seq![
        ("prop"@, "extracts"@),
        ("explaintext"@, ""@),
        ("exintro"@, ""@),
        ("redirects"@, ""@),
    ]
}

/// The parameters of the question for the plain text of the introduction of a page.
pub fn summary_operation() -> (operation: Vec<(String, String)>)
    ensures
        operation.deep_view() == summary_params(),
{
    let operation = vec![
        param("prop", "extracts"),
        param("explaintext", ""),
        param("exintro", ""),
        param("redirects", ""),
    ];
    assert(operation.deep_view() =~= summary_params());
    operation
}

/// The parameters of the question for the coordinates of a page.
pub open spec fn coordinates_params() -> ParamsView {
    seq![
        ("prop"@, "coordinates"@),
        ("colimit"@, "max"@),
        ("redirects"@, ""@),
    ]
}

/// The parameters of the question for the coordinates of a page.
pub fn coordinates_operation() -> (operation: Vec<(String, String)>)
    ensures
        operation.deep_view() == coordinates_params(),
{
    let operation = vec![
        param("prop", "coordinates"),
        param("colimit", "max"),
        param("redirects", ""),
    ];
    assert(operation.deep_view() =~= coordinates_params());
    operation
}

/// What a question is asked of after a redirect: the page with the title
/// that the redirect names. A redirect is always followed by title.
pub open spec fn redirect_target_params(title: Seq<char>) -> ParamsView {
    seq![("titles"@, title)]
}

/// What a question is asked of after a redirect to the page titled `title`.
pub fn redirect_selection(title: &str) -> (target: Vec<(String, String)>)
    ensures
        target.deep_view() == redirect_target_params(title@),
{
    let target = vec![param("titles", title)];
    assert(target.deep_view() =~= redirect_target_params(title@));
    target
}

/// What follows an answer to a question about a page.
#[derive(Debug)]
pub enum Step {
    /// The answer is about the page itself.
    Done(Json),
    /// The page redirects to the page with this title, which is asked next.
    Follow(String),
    /// The operation fails.
    Fail(Error),
}

/// Whether `step` is what follows the answer `answer` after `hops`
/// redirects: a failed answer fails the operation; an answer that names no
/// redirect target ends it; one that names a target is followed, unless
/// `MAX_REDIRECTS` redirects were followed already, which is a
/// `JSONPathError`.
pub open spec fn follows(step: Step, answer: Result<JsonView, ErrorView>, hops: u32) -> bool {
    match answer {
        Err(e) => step matches Step::Fail(f) && f@ == e,
        Ok(doc) => match redirect_target(doc) {
            None => step matches Step::Done(d) && d@ == doc,
            Some(title) => if hops < MAX_REDIRECTS {
                step matches Step::Follow(t) && t@ == title
            } else {
                step matches Step::Fail(f) && f@ == ErrorView::JSONPathError
            },
        },
    }
}

/// Whether an operation on a page may end in `end`: in a document that
/// some answer held and that names no redirect target, in the error of
/// some answer, or in a `JSONPathError`.
pub open spec fn settled(end: Result<JsonView, ErrorView>) -> bool {
    match end {
        Ok(doc) => redirect_target(doc) is None && exists|
            response: Result<Seq<char>, http::Error>,
        | document_of(response) == Ok::<JsonView, ErrorView>(doc),
        Err(e) => e == ErrorView::JSONPathError || exists|
            response: Result<Seq<char>, http::Error>,
        | document_of(response) == Err::<JsonView, ErrorView>(e),
    }
}

/// The plain text that an operation ends in.
pub open spec fn then_extract(end: Result<JsonView, ErrorView>) -> Result<Seq<char>, ErrorView> {
    match end {
        Ok(doc) => extract_of(doc),
        Err(e) => Err(e),
    }
}

/// The HTML that an operation ends in.
pub open spec fn then_html(end: Result<JsonView, ErrorView>) -> Result<Seq<char>, ErrorView> {
    match end {
        Ok(doc) => html_of(doc),
        Err(e) => Err(e),
    }
}

/// The coordinates that an operation ends in.
pub open spec fn then_coordinates(end: Result<JsonView, ErrorView>) -> Result<
    Option<(u64, u64)>,
    ErrorView,
> {
    match end {
        Ok(doc) => coordinates_of(doc),
        Err(e) => Err(e),
    }
}

/// Reads the title that a document redirects to.
pub fn redirect_of(doc: &Json) -> (r: Option<String>)
    ensures
        r.deep_view() == redirect_target(doc@),
{
    match get_string(
        get_member(get_element(get_member(doc.get("query"), "redirects"), 0), "to"),
    ) {
        Some(title) => Some(title.to_owned()),
        None => None,
    }
}

/// Decides what follows an answer to a question after `hops` redirects.
pub fn after_answer(answer: Result<Json, Error>, hops: u32) -> (step: Step)
    ensures
        follows(step, outcome(answer), hops),
{
    match answer {
        Err(e) => Step::Fail(e),
        Ok(doc) => match redirect_of(&doc) {
            None => Step::Done(doc),
            Some(title) => if hops < MAX_REDIRECTS {
                Step::Follow(title)
            } else {
                Step::Fail(Error::JSONPathError)
            },
        },
    }
}

/// Whether two pages are addressed in the same way and by the same text.
pub open spec fn same_address(a: TitlePageId, b: TitlePageId) -> bool {
    match (a, b) {
        (TitlePageId::Title(t1), TitlePageId::Title(t2)) => t1@ == t2@,
        (TitlePageId::PageId(p1), TitlePageId::PageId(p2)) => p1@ == p2@,
        _ => false,
    }
}

/// A page of an encyclopedia, seen through a client.
#[derive(Debug)]
pub struct Page<'a, A: HttpClient> {
    wikipedia: &'a Wikipedia<A>,
    identifier: TitlePageId,
}

impl<'a, A: HttpClient> Page<'a, A> {
    /// The client that the page is seen through.
    pub closed spec fn client(&self) -> &'a Wikipedia<A> {
        self.wikipedia
    }

    /// How the page is addressed.
    pub closed spec fn address(&self) -> TitlePageId {
        self.identifier
    }

    /// The page with a title.
    pub fn from_title(wikipedia: &'a Wikipedia<A>, title: String) -> (page: Page<'a, A>)
        ensures
            page.client() == wikipedia,
            page.address() == TitlePageId::Title(title),
    {
        Page { wikipedia: wikipedia, identifier: TitlePageId::Title(title) }
    }

    /// The page with a page id.
    pub fn from_pageid(wikipedia: &'a Wikipedia<A>, pageid: String) -> (page: Page<'a, A>)
        ensures
            page.client() == wikipedia,
            page.address() == TitlePageId::PageId(pageid),
    {
        Page { wikipedia: wikipedia, identifier: TitlePageId::PageId(pageid) }
    }

    /// The title that a document redirects to.
    pub fn redirect(&self, q: &Json) -> (r: Option<String>)
        ensures
            r.deep_view() == redirect_target(q@),
    {
        redirect_of(q)
    }

    /// The continuation token of a document.
    pub fn parse_cont(&self, q: &Json) -> (r: Result<Option<Vec<(String, String)>>, Error>)
        ensures
            outcome(r) == continuation_of(q@),
    {
        continuation(q)
    }

    /// What a question is asked of first: the page as it is addressed.
    pub fn selection(&self) -> (target: Vec<(String, String)>)
        ensures
            target.deep_view() == seq![self.address().spec_query_param()],
    {
        let target = vec![self.identifier.query_param()];
        assert(target.deep_view() =~= seq![self.identifier.spec_query_param()]);
        target
    }

    /// The parameters of a listing of the images of the page.
    pub fn images_operation(&self) -> (operation: Vec<(String, String)>)
        ensures
            operation.deep_view() == images_params(self.client().images_results@),
    {
        let operation = vec![
            param("generator", "images"),
            param("gimlimit", self.wikipedia.images_results.as_str()),
            param("prop", "imageinfo"),
            param("iiprop", "url"),
        ];
        assert(operation.deep_view() =~= images_params(self.wikipedia.images_results@));
        operation
    }

    /// What the request for images that follows an answer with the token
    /// `cont` is asked of.
    pub fn images_selection(&self, cont: &Option<Vec<(String, String)>>) -> (target: Vec<
        (String, String),
    >)
        ensures
            target.deep_view() == images_target(self.address().spec_query_param(), cont.deep_view()),
    {
        let mut target: Vec<(String, String)> = vec![self.identifier.query_param()];
        let ghost first = target.deep_view();
        assert(first =~= seq![self.identifier.spec_query_param()]);
        match cont {
            Some(pairs) => {
                extend(&mut target, pairs);
            },
            None => {
                target.push(param("continue", ""));
                assert(target.deep_view() =~= first + seq![("continue"@, ""@)]);
            },
        }
        target
    }

    /// Asks for the images of the page that follow the token `cont`.
    pub fn request_images(&self, cont: &Option<Vec<(String, String)>>) -> (r: Result<
        (Vec<(String, Json)>, Option<Vec<(String, String)>>),
        Error,
    >)
        ensures
            exists|response: Result<Seq<char>, http::Error>|
                outcome(r) == images_page_of(document_of(response)),
    {
        let operation = self.images_operation();
        let target = self.images_selection(cont);
        let answer = self.wikipedia.query(&operation, &target);
        let ghost response = choose|response: Result<Seq<char>, http::Error>|
            outcome(answer) == document_of(response);
        let r = images_page(answer);
        assert(outcome(r) == images_page_of(document_of(response)));
        r
    }

    /// The images of the page, one after the other.
    pub fn get_images(&self) -> (r: Result<Iter<'_, A>, Error>)
        ensures
            exists|response: Result<Seq<char>, http::Error>|
                crate::images::begins(r, self, images_page_of(document_of(response))),
    {
        Iter::new(self)
    }

    /// Asks a question of the page and, where the answer names a redirect,
    /// of the page that it names, `MAX_REDIRECTS` times at most; returns the
    /// document that settles the question.
    fn settle(&self, operation: &Vec<(String, String)>) -> (r: Result<Json, Error>)
        ensures
            settled(outcome(r)),
    {
        let mut target = self.selection();
        let mut hops: u32 = 0;
        loop
            invariant
                hops <= MAX_REDIRECTS,
            decreases MAX_REDIRECTS - hops,
        {
            let answer = self.wikipedia.query(operation, &target);
            let ghost response = choose|response: Result<Seq<char>, http::Error>|
                outcome(answer) == document_of(response);
            match after_answer(answer, hops) {
                Step::Done(doc) => {
                    assert(document_of(response) == Ok::<JsonView, ErrorView>(doc@));
                    return Ok(doc);
                },
                Step::Fail(e) => {
                    assert(e@ == ErrorView::JSONPathError || document_of(response) == Err::<
                        JsonView,
                        ErrorView,
                    >(e@));
                    return Err(e);
                },
                Step::Follow(title) => {
                    target = redirect_selection(title.as_str());
                    hops = hops + 1;
                },
            }
        }
    }

    /// The plain text of the page.
    pub fn get_content(&self) -> (r: Result<String, Error>)
        ensures
            exists|end: Result<JsonView, ErrorView>| settled(end) && outcome(r) == then_extract(end),
    {
        let operation = content_operation();
        let answered = self.settle(&operation);
        let ghost end = outcome(answered);
        let r = match answered {
            Ok(doc) => extract(&doc),
            Err(e) => Err(e),
        };
        assert(settled(end) && outcome(r) == then_extract(end));
        r
    }

    /// The HTML of the page.
    pub fn get_html_content(&self) -> (r: Result<String, Error>)
        ensures
            exists|end: Result<JsonView, ErrorView>| settled(end) && outcome(r) == then_html(end),
    {
        let operation = html_operation();
        let answered = self.settle(&operation);
        let ghost end = outcome(answered);
        let r = match answered {
            Ok(doc) => html(&doc),
            Err(e) => Err(e),
        };
        assert(settled(end) && outcome(r) == then_html(end));
        r
    }

    /// The plain text of the introduction of the page.
    pub fn get_summary(&self) -> (r: Result<String, Error>)
        ensures
            exists|end: Result<JsonView, ErrorView>| settled(end) && outcome(r) == then_extract(end),
    {
        let operation = summary_operation();
        let answered = self.settle(&operation);
        let ghost end = outcome(answered);
        let r = match answered {
            Ok(doc) => extract(&doc),
            Err(e) => Err(e),
        };
        assert(settled(end) && outcome(r) == then_extract(end));
        r
    }

    /// The latitude and longitude of the page, as binary64 bit patterns, if
    /// it has coordinates.
    pub fn get_coordinates(&self) -> (r: Result<Option<(u64, u64)>, Error>)
        ensures
            exists|end: Result<JsonView, ErrorView>| settled(end) && outcome(r) == then_coordinates(end),
    {
        let operation = coordinates_operation();
        let answered = self.settle(&operation);
        let ghost end = outcome(answered);
        let r = match answered {
            Ok(doc) => coordinates(&doc),
            Err(e) => Err(e),
        };
        assert(settled(end) && outcome(r) == then_coordinates(end));
        r
    }
}

impl<'a, A: HttpClient> PartialEq for Page<'a, A> {
    /// Two pages are equal where they are addressed in the same way and by
    /// the same text, whatever client they are seen through.
    fn eq(&self, other: &Page<'a, A>) -> (r: bool) {
        match (&self.identifier, &other.identifier) {
            (TitlePageId::Title(t1), TitlePageId::Title(t2)) => same_text(
                t1.as_str(),
                t2.as_str(),
            ),
            (TitlePageId::PageId(p1), TitlePageId::PageId(p2)) => same_text(
                p1.as_str(),
                p2.as_str(),
            ),
            _ => false,
        }
    }
}

impl<'a, A: HttpClient> PartialEqSpecImpl for Page<'a, A> {
    open spec fn obeys_eq_spec() -> bool {
        true
    }

    open spec fn eq_spec(&self, other: &Page<'a, A>) -> bool {
        same_address(self.address(), other.address())
    }
}

} // verus!
