//! The transport that requests are handed to, and the address that a
//! request is sent to.

use vstd::prelude::*;

verus! {

/// Why a request was not answered.
#[derive(Debug)]
pub enum Error {
    /// The address is no absolute URL, or the request is too long for one.
    InvalidUrl,
    /// The transport failed.
    Failed,
}

/// Performs GET requests. Nothing is promised of a transport: what the
/// client does with an answer holds of every answer.
pub trait HttpClient {
    /// Sets the name that the transport gives for itself.
    fn user_agent(&mut self, user_agent: String);

    /// Sends `args` to `base_url` and returns the body of the answer.
    fn get(&self, base_url: &str, args: Vec<(String, String)>) -> Result<String, Error>;
}

/// `url::ParseError`, of which nothing is known.
#[verifier::external_type_specification]
#[verifier::external_body]
pub struct ExParseError(url::ParseError);

/// The most characters that the address and the parameters of one request
/// may hold together.
pub const MAX_REQUEST_CHARS: usize = 0x400_0000;

/// The characters that a parameter list holds, with two more for each
/// parameter: the sign between name and value and the sign before the
/// next.
pub open spec fn params_chars(args: Seq<(Seq<char>, Seq<char>)>) -> nat
    decreases args.len(),
{
    if args.len() == 0 {
        0
    } else {
        params_chars(args.drop_last()) + args.last().0.len() + args.last().1.len() + 2
    }
}

/// Whether a request is short enough to be written as one URL.
pub open spec fn fits(base_url: Seq<char>, args: Seq<(Seq<char>, Seq<char>)>) -> bool {
    base_url.len() + params_chars(args) <= MAX_REQUEST_CHARS
}

/// A parameter list holds at least what each of its beginnings holds.
proof fn lemma_params_chars_grow(args: Seq<(Seq<char>, Seq<char>)>, upto: int)
    requires
        0 <= upto <= args.len(),
    ensures
        params_chars(args.subrange(0, upto)) <= params_chars(args),
    decreases args.len() - upto,
{
    if upto == args.len() {
        assert(args.subrange(0, upto) =~= args);
    } else {
        lemma_params_chars_grow(args, upto + 1);
        assert(args.subrange(0, upto + 1).drop_last() =~= args.subrange(0, upto));
    }
}

/// Whether a request is short enough to be written as one URL.
pub fn request_fits(base_url: &str, args: &Vec<(String, String)>) -> (r: bool)
    ensures
        r == fits(base_url@, args.deep_view()),
{
    let ghost all = args.deep_view();
    let mut total: usize = base_url.unicode_len();
    if total > MAX_REQUEST_CHARS {
        return false;
    }
    let mut i: usize = 0;
    assert(all.subrange(0, 0) =~= Seq::empty());
    while i < args.len()
        invariant
            i <= args.len(),
            all == args.deep_view(),
            total == base_url@.len() + params_chars(all.subrange(0, i as int)),
            total <= MAX_REQUEST_CHARS,
        decreases args.len() - i,
    {
        let ghost upto = all.subrange(0, i + 1);
        proof {
            assert(upto.drop_last() =~= all.subrange(0, i as int));
            assert(upto.last() == (args@[i as int].0@, args@[i as int].1@));
            lemma_params_chars_grow(all, i + 1);
        }
        let name = args[i].0.as_str().unicode_len();
        let value = args[i].1.as_str().unicode_len();
        if name > MAX_REQUEST_CHARS - total {
            return false;
        }
        total = total + name;
        if value > MAX_REQUEST_CHARS - total {
            return false;
        }
        total = total + value;
        if 2 > MAX_REQUEST_CHARS - total {
            return false;
        }
        total = total + 2;
        i = i + 1;
    }
    assert(all.subrange(0, args.len() as int) =~= all);
    true
}

/// What `url::Url::parse_with_params` makes of an address and a parameter
/// list, written out as a string; `None` where it refuses the address.
pub uninterp spec fn url_with_params(base_url: Seq<char>, args: Seq<(Seq<char>, Seq<char>)>) -> Option<Seq<char>>;

/// `url::Url::parse_with_params`, the URL written out as a string. The
/// result is a function of the address and the parameters alone: it is
/// what `url_with_params` names. The function keeps places in the URL as
/// 32-bit numbers and panics where the URL outgrows them. A character of a
/// request takes a few bytes of the URL, twelve where it is written in
/// percent signs, so a request that `fits` stays far below that length.
#[verifier::external_body]
fn parse_with_params(base_url: &str, args: &Vec<(String, String)>) -> (r: Result<
    String,
    url::ParseError,
>)
    requires
        fits(base_url@, args.deep_view()),
    ensures
        match r {
            Ok(u) => url_with_params(base_url@, args.deep_view()) == Some(u@),
            Err(_) => url_with_params(base_url@, args.deep_view()) is None,
        },
{
    url::Url::parse_with_params(base_url, args).map(String::from)
}

/// The URL of the request that sends `args` to `base_url`. A request that
/// is too long, or whose address is no absolute URL, has none.
pub fn request_url(base_url: &str, args: &Vec<(String, String)>) -> (r: Result<String, Error>)
    ensures
        match r {
            Ok(u) => fits(base_url@, args.deep_view()) && url_with_params(
                base_url@,
                args.deep_view(),
            ) == Some(u@),
            Err(e) => e == Error::InvalidUrl && (!fits(base_url@, args.deep_view())
                || url_with_params(base_url@, args.deep_view()) is None),
        },
{
    if !request_fits(base_url, args) {
        return Err(Error::InvalidUrl);
    }
    match parse_with_params(base_url, args) {
        Ok(u) => Ok(u),
        Err(_) => Err(Error::InvalidUrl),
    }
}

} // verus!
