//! The client configuration, the query executor, and the operations that
//! answer with a list of titles.

use crate::error::{outcome, Error, ErrorView};
use crate::http;
use crate::http::HttpClient;
use crate::json::{
    elements_view, get_member, get_string, member_of, parse, parsed, string_of, Json, JsonView,
};
use crate::page::{Page, TitlePageId};
use crate::params::{param, request_args, ParamsView};
use crate::text::{
    decimal, decimal_string, find, first_occurrence, lemma_first_occurrence_is_leftmost,
    lemma_occurrence_splits,
};
use vstd::prelude::*;

verus! {

/// The marker of the place of the language code in a URL template.
pub open spec fn marker() -> Seq<char> {
    "{language}"@
}

/// The three pieces of a base URL: what stands before the language code,
/// the language code, and what stands after it.
pub struct UrlParts {
    pub prefix: Seq<char>,
    pub language: Seq<char>,
    pub suffix: Seq<char>,
}

impl UrlParts {
    /// The base URL that the pieces make.
    pub open spec fn url(self) -> Seq<char> {
        self.prefix + self.language + self.suffix
    }

    /// The same pieces with another language code.
    pub open spec fn with_language(self, language: Seq<char>) -> UrlParts {
        UrlParts { prefix: self.prefix, language: language, suffix: self.suffix }
    }
}

/// The pieces that a template gives to a client whose language code is
/// `language`: the template is cut at the leftmost marker and the language
/// code is kept; a template without a marker is the prefix whole, and
/// language code and suffix are empty.
pub open spec fn split_template(template: Seq<char>, language: Seq<char>) -> UrlParts {
    match first_occurrence(template, marker()) {
        Some(at) => UrlParts {
            prefix: template.subrange(0, at),
            language: language,
            suffix: template.subrange(at + marker().len(), template.len() as int),
        },
        None => UrlParts { prefix: template, language: Seq::empty(), suffix: Seq::empty() },
    }
}

/// The body of an answer, or why there is none.
pub open spec fn response_view(response: Result<String, http::Error>) -> Result<
    Seq<char>,
    http::Error,
> {
    match response {
        Ok(body) => Ok(body@),
        Err(e) => Err(e),
    }
}

/// The document that an answer holds: a failed request is an `HTTPError`, a
/// body that is no JSON document a `JSONError` with the parser's message.
pub open spec fn document_of(response: Result<Seq<char>, http::Error>) -> Result<
    JsonView,
    ErrorView,
> {
    match response {
        Err(_) => Err(ErrorView::HTTPError),
        Ok(body) => match parsed(body) {
            Ok(doc) => Ok(doc),
            Err(message) => Err(ErrorView::JSONError(message)),
        },
    }
}

/// The `title` strings of `items`, in their order; an item without one is
/// passed over.
pub open spec fn titles_in(items: Seq<JsonView>) -> Seq<Seq<char>>
    decreases items.len(),
{
    if items.len() == 0 {
        Seq::empty()
    } else {
        let before = titles_in(items.drop_last());
        match string_of(items.last().member("title"@)) {
            Some(title) => before.push(title),
            None => before,
        }
    }
}

/// The titles of the list `query.<list>` of a document, or `JSONPathError`
/// where the document has no such list.
pub open spec fn titles_of(doc: JsonView, list: Seq<char>) -> Result<Seq<Seq<char>>, ErrorView> {
    match member_of(doc.member("query"@), list) {
        Some(JsonView::Array(items)) => Ok(titles_in(items)),
        _ => Err(ErrorView::JSONPathError),
    }
}

/// What an operation that asks for the list `list` returns for an answer.
pub open spec fn listing(response: Result<Seq<char>, http::Error>, list: Seq<char>) -> Result<
    Seq<Seq<char>>,
    ErrorView,
> {
    match document_of(response) {
        Ok(doc) => titles_of(doc, list),
        Err(e) => Err(e),
    }
}

/// The first of the titles that an operation returned, if there is one.
pub open spec fn first_title(titles: Result<Seq<Seq<char>>, ErrorView>) -> Result<
    Option<Seq<char>>,
    ErrorView,
> {
    match titles {
        Ok(t) => Ok(
            if t.len() > 0 {
                Some(t[0])
            } else {
                None
            },
        ),
        Err(e) => Err(e),
    }
}

/// The parameters of a text search.
pub open spec fn search_params(limit: u32, query: Seq<char>) -> ParamsView {
    seq![
        ("list"@, "search"@),
        ("srprop"@, ""@),
        ("srlimit"@, decimal(limit as nat)),
        ("srsearch"@, query),
    ]
}

/// The parameters of a search around a place.
pub open spec fn geosearch_params(radius: u16, coordinates: Seq<char>, limit: u32) -> ParamsView {
    seq![
        ("list"@, "geosearch"@),
        ("gsradius"@, decimal(radius as nat)),
        ("gscoord"@, coordinates),
        ("gslimit"@, decimal(limit as nat)),
    ]
}

/// The parameters of a draw of random pages.
pub open spec fn random_params(count: u8) -> ParamsView {
    seq![("list"@, "random"@), ("rnnamespace"@, "0"@), ("rnlimit"@, decimal(count as nat))]
}

/// Whether a radius, in metres, is one that a search around a place takes.
pub open spec fn radius_in_range(radius: u16) -> bool {
    10 <= radius <= 10000
}

/// The name that the library gives for itself to the transport.
pub open spec fn library_name() -> Seq<char> {
    "wikipedia (https://github.com/seppo0010/wikipedia-rs)"@
}

/// The name that the library gives for itself to the transport.
pub fn user_agent_name() -> (name: String)
    ensures
        name@ == library_name(),
{
    "wikipedia (https://github.com/seppo0010/wikipedia-rs)".to_owned()
}

/// A client of one encyclopedia.
#[derive(Debug)]
pub struct Wikipedia<A: HttpClient> {
    pub client: A,
    pub pre_language_url: String,
    pub post_language_url: String,
    pub language: String,
    pub search_results: u32,
    pub images_results: String,
}

impl<A: HttpClient + Default> Default for Wikipedia<A> {
    /// A client of the English Wikipedia, whose transport was given the
    /// library's name.
    fn default() -> (r: Self)
        ensures
            r.pre_language_url@ == "https://"@,
            r.language@ == "en"@,
            r.post_language_url@ == ".wikipedia.org/w/api.php"@,
            r.search_results == 10,
            r.images_results@ == "max"@,
    {
        let mut client = A::default();
        client.user_agent(user_agent_name());
        Wikipedia {
            client: client,
            pre_language_url: "https://".to_owned(),
            post_language_url: ".wikipedia.org/w/api.php".to_owned(),
            language: "en".to_owned(),
            search_results: 10,
            images_results: "max".to_owned(),
        }
    }
}

/// Reads an answer as a document, which is well formed.
pub fn read_document(response: Result<String, http::Error>) -> (r: Result<Json, Error>)
    ensures
        outcome(r) == document_of(response_view(response)),
        r matches Ok(doc) ==> doc@.well_formed(),
{
    match response {
        Err(_) => Err(Error::HTTPError),
        Ok(body) => match parse(body.as_str()) {
            Ok(doc) => Ok(doc),
            Err(message) => Err(Error::JSONError(message)),
        },
    }
}

/// The titles of the list `query.<list>` of a document.
pub fn titles(doc: &Json, list: &str) -> (r: Result<Vec<String>, Error>)
    ensures
        outcome(r) == titles_of(doc@, list@),
{
    let items = match get_member(doc.get("query"), list) {
        Some(found) => match found.as_array() {
            Some(items) => items,
            None => {
                return Err(Error::JSONPathError);
            },
        },
        None => {
            return Err(Error::JSONPathError);
        },
    };
    let ghost all = elements_view(items@);
    let mut out: Vec<String> = Vec::new();
    let mut i: usize = 0;
    assert(out.deep_view() =~= titles_in(all.subrange(0, 0)));
    while i < items.len()
        invariant
            i <= items.len(),
            all == elements_view(items@),
            out.deep_view() == titles_in(all.subrange(0, i as int)),
        decreases items.len() - i,
    {
        let ghost before = out.deep_view();
        let ghost upto = all.subrange(0, i + 1);
        assert(upto.drop_last() =~= all.subrange(0, i as int));
        assert(upto.last() == items@[i as int]@);
        match get_string(items[i].get("title")) {
            Some(title) => {
                out.push(title.to_owned());
                assert(out.deep_view() =~= before.push(title@));
            },
            None => {},
        }
        i = i + 1;
    }
    assert(all.subrange(0, items.len() as int) =~= all);
    Ok(out)
}

/// The first of a list of titles.
pub fn first_of(titles: Result<Vec<String>, Error>) -> (r: Result<Option<String>, Error>)
    ensures
        outcome(r) == first_title(outcome(titles)),
{
    match titles {
        Ok(list) => {
            let mut list = list;
            if list.len() > 0 {
                Ok(Some(list.swap_remove(0)))
            } else {
                Ok(None)
            }
        },
        Err(e) => Err(e),
    }
}

/// Tests the radius of a search around a place.
pub fn check_radius(radius: u16) -> (r: Result<(), Error>)
    ensures
        radius_in_range(radius) ==> r is Ok,
        !radius_in_range(radius) ==> outcome(r) == Err::<(), ErrorView>(
            ErrorView::InvalidParameter("radius"@),
        ),
{
    if radius < 10 || radius > 10000 {
        Err(Error::InvalidParameter("radius".to_owned()))
    } else {
        Ok(())
    }
}

impl<A: HttpClient> Wikipedia<A> {
    /// The pieces of the base URL.
    pub open spec fn url_parts(&self) -> UrlParts {
        UrlParts {
            prefix: self.pre_language_url@,
            language: self.language@,
            suffix: self.post_language_url@,
        }
    }

    /// The URL that requests are sent to.
    pub fn base_url(&self) -> (url: String)
        ensures
            url@ == self.url_parts().url(),
    {
        let mut url = self.pre_language_url.clone();
        url.append(self.language.as_str());
        url.append(self.post_language_url.as_str());
        url
    }

    /// Configures the base URL from a template, in which `{language}` marks
    /// the place of the language code.
    pub fn set_base_url(&mut self, base_url: &str)
        ensures
            final(self).url_parts() == split_template(base_url@, old(self).language@),
            final(self).client == old(self).client,
            final(self).search_results == old(self).search_results,
            final(self).images_results == old(self).images_results,
    {
        match find(base_url, "{language}") {
            None => {
                self.pre_language_url = base_url.to_owned();
                self.language = String::new();
                self.post_language_url = String::new();
            },
            Some(index) => {
                proof {
                    reveal_strlit("{language}");
                    lemma_first_occurrence_is_leftmost(base_url@, marker());
                }
                let end = base_url.unicode_len();
                self.pre_language_url = base_url.substring_char(0, index).to_owned();
                self.post_language_url = base_url.substring_char(index + 10, end).to_owned();
            },
        }
    }

    /// Sends one request, of the parameters of an operation and of what it
    /// is asked of, and reads the answer as a document.
    pub fn query(&self, operation: &Vec<(String, String)>, target: &Vec<(String, String)>) -> (r:
        Result<Json, Error>)
        ensures
            exists|response: Result<Seq<char>, http::Error>| outcome(r) == document_of(response),
            r matches Ok(doc) ==> doc@.well_formed(),
    {
        let args = request_args(operation, target);
        let url = self.base_url();
        let response = self.client.get(url.as_str(), args);
        let ghost answer = response_view(response);
        let r = read_document(response);
        assert(outcome(r) == document_of(answer));
        r
    }

    /// The parameters of `search`.
    pub fn search_operation(&self, query: &str) -> (operation: Vec<(String, String)>)
        ensures
            operation.deep_view() == search_params(self.search_results, query@),
    {
        let limit = decimal_string(self.search_results as u64);
        let operation = vec![
            param("list", "search"),
            param("srprop", ""),
            param("srlimit", limit.as_str()),
            param("srsearch", query),
        ];
        assert(operation.deep_view() =~= search_params(self.search_results, query@));
        operation
    }

    /// The parameters of `geosearch`.
    pub fn geosearch_operation(&self, coordinates: &str, radius: u16) -> (operation: Vec<
        (String, String),
    >)
        ensures
            operation.deep_view() == geosearch_params(radius, coordinates@, self.search_results),
    {
        let limit = decimal_string(self.search_results as u64);
        let metres = decimal_string(radius as u64);
        let operation = vec![
            param("list", "geosearch"),
            param("gsradius", metres.as_str()),
            param("gscoord", coordinates),
            param("gslimit", limit.as_str()),
        ];
        assert(operation.deep_view() =~= geosearch_params(
            radius,
            coordinates@,
            self.search_results,
        ));
        operation
    }

    /// The parameters of `random_count`.
    pub fn random_operation(&self, count: u8) -> (operation: Vec<(String, String)>)
        ensures
            operation.deep_view() == random_params(count),
    {
        let limit = decimal_string(count as u64);
        let operation = vec![
            param("list", "random"),
            param("rnnamespace", "0"),
            param("rnlimit", limit.as_str()),
        ];
        assert(operation.deep_view() =~= random_params(count));
        operation
    }

    /// Asks for the list `list` with the parameters of an operation.
    fn list(&self, operation: &Vec<(String, String)>, list: &str) -> (r: Result<Vec<String>, Error>)
        ensures
            exists|response: Result<Seq<char>, http::Error>| outcome(r) == listing(response, list@),
    {
        let target: Vec<(String, String)> = Vec::new();
        let answer = self.query(operation, &target);
        let ghost response = choose|response: Result<Seq<char>, http::Error>|
            outcome(answer) == document_of(response);
        match answer {
            Ok(doc) => {
                let r = titles(&doc, list);
                assert(outcome(r) == listing(response, list@));
                r
            },
            Err(e) => {
                let r = Err(e);
                assert(outcome::<Vec<String>>(r) == listing(response, list@));
                r
            },
        }
    }

    /// The titles of the pages that match a text.
    pub fn search(&self, query: &str) -> (r: Result<Vec<String>, Error>)
        ensures
            exists|response: Result<Seq<char>, http::Error>|
                outcome(r) == listing(response, "search"@),
    {
        let operation = self.search_operation(query);
        self.list(&operation, "search")
    }

    /// The titles of the pages about places within `radius` metres of the
    /// place `coordinates`, written as latitude, a bar and longitude. A
    /// radius out of range is refused before anything is sent.
    pub fn geosearch(&self, coordinates: &str, radius: u16) -> (r: Result<Vec<String>, Error>)
        ensures
            !radius_in_range(radius) ==> outcome(r) == Err::<Seq<Seq<char>>, ErrorView>(
                ErrorView::InvalidParameter("radius"@),
            ),
            radius_in_range(radius) ==> exists|response: Result<Seq<char>, http::Error>|
                outcome(r) == listing(response, "geosearch"@),
    {
        match check_radius(radius) {
            Err(e) => Err(e),
            Ok(_) => {
                let operation = self.geosearch_operation(coordinates, radius);
                self.list(&operation, "geosearch")
            },
        }
    }

    /// The titles of `count` pages drawn at random.
    pub fn random_count(&self, count: u8) -> (r: Result<Vec<String>, Error>)
        ensures
            exists|response: Result<Seq<char>, http::Error>|
                outcome(r) == listing(response, "random"@),
    {
        let operation = self.random_operation(count);
        self.list(&operation, "random")
    }

    /// The parameters of `random`: those of a draw of one page.
    pub fn single_random_operation(&self) -> (operation: Vec<(String, String)>)
        ensures
            operation.deep_view() == random_params(1),
    {
        self.random_operation(1)
    }

    /// The title of one page drawn at random.
    pub fn random(&self) -> (r: Result<Option<String>, Error>)
        ensures
            exists|response: Result<Seq<char>, http::Error>| outcome(r) == first_title(
                listing(response, "random"@),
            ),
    {
        let operation = self.single_random_operation();
        let drawn = self.list(&operation, "random");
        let ghost response = choose|response: Result<Seq<char>, http::Error>|
            outcome(drawn) == listing(response, "random"@);
        let r = first_of(drawn);
        assert(outcome(r) == first_title(listing(response, "random"@)));
        r
    }

    /// The page with a title.
    pub fn page_from_title<'a>(&'a self, title: String) -> (page: Page<'a, A>)
        ensures
            page.client() == self,
            page.address() == TitlePageId::Title(title),
    {
        Page::from_title(self, title)
    }

    /// The page with a page id.
    pub fn page_from_pageid<'a>(&'a self, pageid: String) -> (page: Page<'a, A>)
        ensures
            page.client() == self,
            page.address() == TitlePageId::PageId(pageid),
    {
        Page::from_pageid(self, pageid)
    }
}

/// A template with a marker is its prefix, the marker and its suffix, and
/// the base URL made from it is the prefix, the language code and the
/// suffix: the language code stands where the marker stood.
pub proof fn law_template_with_marker(template: Seq<char>, language: Seq<char>)
    requires
        first_occurrence(template, marker()) is Some,
    ensures
        ({
            let parts = split_template(template, language);
            &&& parts.prefix + marker() + parts.suffix == template
            &&& parts.language == language
            &&& parts.url() == parts.prefix + language + parts.suffix
        }),
{
    let at = first_occurrence(template, marker())->0;
    lemma_first_occurrence_is_leftmost(template, marker());
    lemma_occurrence_splits(template, marker(), at);
}

/// Changing the language code alone changes only the middle of the base
/// URL: the prefix stays its beginning and the suffix its end.
pub proof fn law_language_is_middle_segment(parts: UrlParts, language: Seq<char>)
    ensures
        ({
            let changed = parts.with_language(language).url();
            &&& changed == parts.prefix + language + parts.suffix
            &&& changed.subrange(0, parts.prefix.len() as int) == parts.prefix
            &&& changed.subrange(changed.len() - parts.suffix.len(), changed.len() as int)
                == parts.suffix
            &&& changed.subrange(parts.prefix.len() as int, changed.len() - parts.suffix.len())
                == language
        }),
{
    let changed = parts.with_language(language).url();
    assert(changed.subrange(0, parts.prefix.len() as int) =~= parts.prefix);
    assert(changed.subrange(changed.len() - parts.suffix.len(), changed.len() as int)
        =~= parts.suffix);
    assert(changed.subrange(parts.prefix.len() as int, changed.len() - parts.suffix.len())
        =~= language);
}

/// The base URL made from a template without a marker is the template,
/// whatever language code the client had.
pub proof fn law_template_without_marker(template: Seq<char>, language: Seq<char>)
    requires
        first_occurrence(template, marker()) is None,
    ensures
        split_template(template, language).url() == template,
{
    assert(template + Seq::<char>::empty() + Seq::<char>::empty() =~= template);
}

} // verus!
