//! The images of a page: a listing that is fetched piece by piece, each
//! piece asked for with the continuation token of the piece before.

use crate::error::{outcome, Error, ErrorView};
use crate::http;
use crate::http::HttpClient;
use crate::json::{
    element_of, get_element, get_member, get_string, member_of, string_of, Json, JsonView,
};
use crate::client::document_of;
use crate::page::{images_page_of, Page};
use crate::params::ParamsView;
use vstd::prelude::*;

verus! {

/// An image of a page.
#[derive(Debug, PartialEq)]
pub struct Image {
    pub url: String,
    pub title: String,
    pub description_url: String,
}

/// The mathematical value of an [`Image`].
pub struct ImageView {
    pub url: Seq<char>,
    pub title: Seq<char>,
    pub description_url: Seq<char>,
}

impl DeepView for Image {
    type V = ImageView;

    open spec fn deep_view(&self) -> ImageView {
        ImageView { url: self.url@, title: self.title@, description_url: self.description_url@ }
    }
}

/// The image that a page document describes: `imageinfo[0]` gives `url` and
/// `descriptionurl`, the document's `title` the title. A document that
/// lacks one of them is a `JSONPathError`.
pub open spec fn image_of(page: JsonView) -> Result<ImageView, ErrorView> {
    let info = element_of(page.member("imageinfo"@), 0);
    match (
        string_of(member_of(info, "url"@)),
        string_of(page.member("title"@)),
        string_of(member_of(info, "descriptionurl"@)),
    ) {
        (Some(url), Some(title), Some(description_url)) => Ok(
            ImageView { url: url, title: title, description_url: description_url },
        ),
        _ => Err(ErrorView::JSONPathError),
    }
}

/// What is handed out of the page documents `pending`: the image of the
/// first, or nothing where there is none; and the page documents that
/// stay.
pub open spec fn handed_out(pending: Seq<(Seq<char>, JsonView)>) -> (
    Result<Option<ImageView>, ErrorView>,
    Seq<(Seq<char>, JsonView)>,
) {
    if pending.len() > 0 {
        (
            match image_of(pending[0].1) {
                Ok(image) => Ok(Some(image)),
                Err(e) => Err(e),
            },
            pending.subrange(1, pending.len() as int),
        )
    } else {
        (Ok(None), pending)
    }
}

/// Reads the image that a page document describes.
pub fn read_image(page: &Json) -> (r: Result<Image, Error>)
    ensures
        outcome(r) == image_of(page@),
{
    let info = get_element(page.get("imageinfo"), 0);
    match (
        get_string(get_member(info, "url")),
        get_string(page.get("title")),
        get_string(get_member(info, "descriptionurl")),
    ) {
        (Some(url), Some(title), Some(description_url)) => Ok(
            Image {
                url: url.to_owned(),
                title: title.to_owned(),
                description_url: description_url.to_owned(),
            },
        ),
        _ => Err(Error::JSONPathError),
    }
}

/// The images of a page, handed out one at a time. The listing cannot be
/// started again: what was handed out is gone.
pub struct Iter<'a, A: HttpClient> {
    page: &'a Page<'a, A>,
    inner: Vec<(String, Json)>,
    position: usize,
    cont: Option<Vec<(String, String)>>,
}

/// Whether a listing begins as the first answer `first` has it: with its
/// page documents and its token, or with its error.
pub open spec fn begins<'a, A: HttpClient>(
    r: Result<Iter<'a, A>, Error>,
    page: &'a Page<'a, A>,
    first: Result<(Seq<(Seq<char>, JsonView)>, Option<ParamsView>), ErrorView>,
) -> bool {
    match first {
        Ok((pages, token)) => r matches Ok(iter) && iter.page() == page && iter.pending() == pages
            && iter.token() == token,
        Err(e) => r matches Err(f) && f@ == e,
    }
}

/// Whether a listing goes from `before` to `after`, and hands out `r`, as
/// it takes in what one request fetched: the page documents and the token
/// of the answer, of which the first image is handed out; or the error,
/// which leaves the listing as it was.
pub open spec fn takes_in<'a, A: HttpClient>(
    before: Iter<'a, A>,
    after: Iter<'a, A>,
    r: Result<Option<ImageView>, ErrorView>,
    fetched: Result<(Seq<(Seq<char>, JsonView)>, Option<ParamsView>), ErrorView>,
) -> bool {
    match fetched {
        Ok((pages, token)) => (r, after.pending()) == handed_out(pages) && after.token() == token,
        Err(e) => r == Err::<Option<ImageView>, ErrorView>(e) && after.pending()
            == before.pending() && after.token() == before.token(),
    }
}

impl<'a, A: HttpClient> Iter<'a, A> {
    /// The page whose images are listed.
    pub closed spec fn page(&self) -> &'a Page<'a, A> {
        self.page
    }

    /// The page documents that were fetched and not handed out yet.
    pub closed spec fn pending(&self) -> Seq<(Seq<char>, JsonView)> {
        if self.position <= self.inner.len() {
            self.inner.deep_view().subrange(self.position as int, self.inner.len() as int)
        } else {
            Seq::empty()
        }
    }

    /// The continuation token of the last answer; without one the listing
    /// ends with what is pending.
    pub closed spec fn token(&self) -> Option<ParamsView> {
        self.cont.deep_view()
    }

    /// Begins the listing with the first request.
    pub fn new(page: &'a Page<'a, A>) -> (r: Result<Iter<'a, A>, Error>)
        ensures
            exists|response: Result<Seq<char>, http::Error>|
                begins(r, page, images_page_of(document_of(response))),
    {
        let first = page.request_images(&None);
        let ghost response = choose|response: Result<Seq<char>, http::Error>|
            outcome(first) == images_page_of(document_of(response));
        let r = match first {
            Ok((pages, cont)) => {
                let iter = Iter { page: page, inner: pages, position: 0, cont: cont };
                assert(iter.pending() =~= pages.deep_view());
                Ok(iter)
            },
            Err(e) => Err(e),
        };
        assert(begins(r, page, images_page_of(document_of(response))));
        r
    }

    /// Hands out the image of the first pending page document.
    fn hand_out(&mut self) -> (r: Result<Option<Image>, Error>)
        ensures
            (outcome(r), final(self).pending()) == handed_out(old(self).pending()),
            final(self).token() == old(self).token(),
            final(self).page() == old(self).page(),
    {
        if self.position < self.inner.len() {
            let r = match read_image(&self.inner[self.position].1) {
                Ok(image) => Ok(Some(image)),
                Err(e) => Err(e),
            };
            proof {
                let before = old(self).pending();
                assert(before[0] == self.inner.deep_view()[self.position as int]);
                assert(before.subrange(1, before.len() as int) =~= self.inner.deep_view().subrange(
                    self.position + 1,
                    self.inner.len() as int,
                ));
            }
            self.position = self.position + 1;
            r
        } else {
            Ok(None)
        }
    }

    /// Takes in what was fetched with the token and hands out the first
    /// image of it. An error leaves the listing as it was.
    pub fn refill(
        &mut self,
        fetched: Result<(Vec<(String, Json)>, Option<Vec<(String, String)>>), Error>,
    ) -> (r: Result<Option<Image>, Error>)
        ensures
            final(self).page() == old(self).page(),
            takes_in(*old(self), *final(self), outcome(r), outcome(fetched)),
    {
        match fetched {
            Ok((pages, cont)) => {
                self.inner = pages;
                self.position = 0;
                self.cont = cont;
                assert(self.pending() =~= pages.deep_view());
                self.hand_out()
            },
            Err(e) => Err(e),
        }
    }

    /// Hands out the next image: the next of those that are pending; where
    /// none is, the first of those that one request with the token
    /// fetches; where there is no token either, nothing: the listing has
    /// ended.
    pub fn next(&mut self) -> (r: Result<Option<Image>, Error>)
        ensures
            final(self).page() == old(self).page(),
            old(self).pending().len() > 0 ==> (outcome(r), final(self).pending()) == handed_out(
                old(self).pending(),
            ) && final(self).token() == old(self).token(),
            old(self).pending().len() == 0 && old(self).token() is None ==> outcome(r) == Ok::<
                Option<ImageView>,
                ErrorView,
            >(None) && final(self).pending() == old(self).pending() && final(self).token() is None,
            old(self).pending().len() == 0 && old(self).token() is Some ==> exists|
                response: Result<Seq<char>, http::Error>,
            |
                takes_in(
                    *old(self),
                    *final(self),
                    outcome(r),
                    images_page_of(document_of(response)),
                ),
    {
        if self.position < self.inner.len() {
            return self.hand_out();
        }
        if self.cont.is_none() {
            return Ok(None);
        }
        let fetched = self.page.request_images(&self.cont);
        let ghost response = choose|response: Result<Seq<char>, http::Error>|
            outcome(fetched) == images_page_of(document_of(response));
        let r = self.refill(fetched);
        assert(takes_in(*old(self), *self, outcome(r), images_page_of(document_of(response))));
        r
    }
}

} // verus!
