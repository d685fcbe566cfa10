use std::sync::Mutex;
use wikipedia::client::{check_radius, first_of, read_document, titles, user_agent_name};
use wikipedia::http::{request_fits, request_url, HttpClient};
use wikipedia::images::{read_image, Image};
use wikipedia::json::{parse, Json};
use wikipedia::page::{
    after_answer, content_operation, continuation, coordinates, coordinates_operation, extract,
    html, html_operation, redirect_selection, summary_operation, Step,
};
use wikipedia::text::{decimal_string, find, same_text};
use wikipedia::{Error, Page, Wikipedia};

struct Scripted {
    agent: Option<String>,
    requests: Mutex<Vec<(String, Vec<(String, String)>)>>,
    answers: Mutex<Vec<Result<String, wikipedia::http::Error>>>,
}

impl Default for Scripted {
    fn default() -> Self {
        Scripted { agent: None, requests: Mutex::new(Vec::new()), answers: Mutex::new(Vec::new()) }
    }
}

impl HttpClient for Scripted {
    fn user_agent(&mut self, user_agent: String) {
        self.agent = Some(user_agent)
    }

    fn get(&self, base_url: &str, args: Vec<(String, String)>) -> Result<String, wikipedia::http::Error> {
        self.requests.lock().unwrap().push((base_url.to_owned(), args));
        self.answers.lock().unwrap().remove(0)
    }
}

fn client(bodies: &[&str]) -> Wikipedia<Scripted> {
    let wikipedia = Wikipedia::<Scripted>::default();
    for body in bodies {
        wikipedia.client.answers.lock().unwrap().push(Ok((*body).to_owned()));
    }
    wikipedia
}

fn sent(wikipedia: &Wikipedia<Scripted>) -> usize {
    wikipedia.client.requests.lock().unwrap().len()
}

fn last_of(wikipedia: &Wikipedia<Scripted>, index: usize) -> (String, String) {
    wikipedia.client.requests.lock().unwrap()[index].1.last().unwrap().clone()
}

fn pair(k: &str, v: &str) -> (String, String) {
    (k.to_owned(), v.to_owned())
}

#[test]
fn template_with_marker_splits_around_it() {
    let mut wikipedia = Wikipedia::<Scripted>::default();
    wikipedia.language = "de".to_owned();
    wikipedia.set_base_url("http://{language}.example.org/api");
    assert_eq!(wikipedia.pre_language_url, "http://");
    assert_eq!(wikipedia.language, "de");
    assert_eq!(wikipedia.post_language_url, ".example.org/api");
    assert_eq!(wikipedia.base_url(), "http://de.example.org/api");
    wikipedia.language = "fr".to_owned();
    assert_eq!(wikipedia.pre_language_url, "http://");
    assert_eq!(wikipedia.post_language_url, ".example.org/api");
    assert_eq!(wikipedia.base_url(), "http://fr.example.org/api");
}

#[test]
fn template_without_marker_is_the_url() {
    let mut wikipedia = Wikipedia::<Scripted>::default();
    wikipedia.language = "de".to_owned();
    wikipedia.set_base_url("http://example.org/api");
    assert_eq!(wikipedia.base_url(), "http://example.org/api");
    assert_eq!(wikipedia.language, "");
    assert_eq!(wikipedia.post_language_url, "");
    assert_eq!(wikipedia.search_results, 10);
    assert_eq!(wikipedia.images_results, "max");
}

#[test]
fn template_edges() {
    let mut wikipedia = Wikipedia::<Scripted>::default();
    wikipedia.set_base_url("{language}");
    assert_eq!(wikipedia.base_url(), "en");
    wikipedia.set_base_url("{language}/x");
    assert_eq!((wikipedia.pre_language_url.as_str(), wikipedia.post_language_url.as_str()), ("", "/x"));
    wikipedia.set_base_url("x/{language}");
    assert_eq!((wikipedia.pre_language_url.as_str(), wikipedia.post_language_url.as_str()), ("x/", ""));
    wikipedia.set_base_url("a{language}b{language}c");
    assert_eq!(wikipedia.base_url(), "aenb{language}c");
    wikipedia.set_base_url("https://é.{language}.ñ/");
    assert_eq!(wikipedia.base_url(), "https://é.en.ñ/");
    wikipedia.set_base_url("{languag}{language");
    assert_eq!(wikipedia.base_url(), "{languag}{language");
    wikipedia.set_base_url("");
    assert_eq!(wikipedia.base_url(), "");
}

#[test]
fn default_configuration() {
    let wikipedia = Wikipedia::<Scripted>::default();
    assert_eq!(wikipedia.pre_language_url, "https://");
    assert_eq!(wikipedia.language, "en");
    assert_eq!(wikipedia.post_language_url, ".wikipedia.org/w/api.php");
    assert_eq!(wikipedia.search_results, 10);
    assert_eq!(wikipedia.images_results, "max");
    assert_eq!(wikipedia.client.agent.as_deref(), Some("wikipedia (https://github.com/seppo0010/wikipedia-rs)"));
}

#[test]
fn transport_is_given_the_name_of_the_library() {
    assert_eq!(user_agent_name(), "wikipedia (https://github.com/seppo0010/wikipedia-rs)");
    let wikipedia = Wikipedia::<Scripted>::default();
    assert_eq!(wikipedia.client.agent, Some(user_agent_name()));
    assert_eq!(sent(&wikipedia), 0);
}

#[test]
fn io_error_is_carried() {
    let error = Error::from(std::io::Error::new(std::io::ErrorKind::Other, "broken"));
    match error {
        Error::IOError(inner) => assert_eq!(inner.to_string(), "broken"),
        other => panic!("{:?}", other),
    }
}

#[test]
fn members_of_a_parsed_object_ascend_by_name() {
    let doc = parse("{\"b\":1,\"a\":2,\"B\":3,\"ab\":4,\"\":5,\"é\":6,\"a\":7}").unwrap();
    let names: Vec<&str> = doc.as_object().unwrap().iter().map(|m| m.0.as_str()).collect();
    assert_eq!(names, vec!["", "B", "a", "ab", "b", "é"]);
    assert_eq!(doc.get("a").unwrap().as_bits(), Some(7.0f64.to_bits()));
    let doc = parse("{\"query\":{\"pages\":{\"9\":{\"extract\":\"nine\"},\"10\":{\"extract\":\"ten\"}}}}").unwrap();
    assert_eq!(extract(&doc).unwrap(), "ten");
}

#[test]
fn decimal_numerals() {
    assert_eq!(decimal_string(0), "0");
    assert_eq!(decimal_string(7), "7");
    assert_eq!(decimal_string(10), "10");
    assert_eq!(decimal_string(10000), "10000");
    assert_eq!(decimal_string(4294967295), "4294967295");
    assert_eq!(decimal_string(u64::MAX), "18446744073709551615");
}

#[test]
fn search_in_text() {
    assert_eq!(find("abcabc", "bc"), Some(1));
    assert_eq!(find("abc", ""), Some(0));
    assert_eq!(find("", ""), Some(0));
    assert_eq!(find("ab", "abc"), None);
    assert_eq!(find("aab", "ab"), Some(1));
    assert_eq!(find("ñab", "ab"), Some(1));
    assert_eq!(find("abc", "d"), None);
    assert!(same_text("abc", "abc"));
    assert!(!same_text("abc", "abd"));
    assert!(!same_text("abc", "ab"));
    assert!(same_text("", ""));
}

#[test]
fn radius_out_of_range_sends_nothing() {
    let wikipedia = client(&[]);
    for radius in [0u16, 5, 9, 10001, u16::MAX] {
        match wikipedia.geosearch("1|2", radius) {
            Err(Error::InvalidParameter(name)) => assert_eq!(name, "radius"),
            other => panic!("{:?}", other),
        }
    }
    assert_eq!(sent(&wikipedia), 0);
    assert!(matches!(check_radius(5), Err(Error::InvalidParameter(_))));
    assert!(check_radius(10).is_ok());
    assert!(check_radius(10000).is_ok());
}

#[test]
fn radius_at_the_limits_is_sent() {
    let body = "{\"query\":{\"geosearch\":[]}}";
    let wikipedia = client(&[body, body]);
    assert_eq!(wikipedia.geosearch("1|2", 10).unwrap(), Vec::<String>::new());
    assert_eq!(wikipedia.geosearch("1|2", 10000).unwrap(), Vec::<String>::new());
    assert_eq!(sent(&wikipedia), 2);
    assert!(wikipedia.client.requests.lock().unwrap()[1].1.contains(&pair("gsradius", "10000")));
}

#[test]
fn search_limit_follows_configuration() {
    let mut wikipedia = client(&["{\"query\":{\"search\":[]}}"]);
    wikipedia.search_results = 250;
    wikipedia.language = "es".to_owned();
    wikipedia.search("x y").unwrap();
    let requests = wikipedia.client.requests.lock().unwrap();
    assert_eq!(requests[0].0, "https://es.wikipedia.org/w/api.php");
    assert!(requests[0].1.contains(&pair("srlimit", "250")));
    assert!(requests[0].1.contains(&pair("srsearch", "x y")));
    assert_eq!(wikipedia.search_operation("q"), vec![
        pair("list", "search"), pair("srprop", ""), pair("srlimit", "250"), pair("srsearch", "q")]);
    assert_eq!(wikipedia.random_operation(255)[2], pair("rnlimit", "255"));
    assert_eq!(wikipedia.single_random_operation(), vec![
        pair("list", "random"), pair("rnnamespace", "0"), pair("rnlimit", "1")]);
    assert_eq!(wikipedia.geosearch_operation("a|b", 77), vec![
        pair("list", "geosearch"), pair("gsradius", "77"), pair("gscoord", "a|b"), pair("gslimit", "250")]);
}

#[test]
fn transport_failure_is_http_error() {
    let wikipedia = Wikipedia::<Scripted>::default();
    wikipedia.client.answers.lock().unwrap().push(Err(wikipedia::http::Error::Failed));
    assert!(matches!(wikipedia.search("x"), Err(Error::HTTPError)));
    assert!(matches!(read_document(Err(wikipedia::http::Error::InvalidUrl)), Err(Error::HTTPError)));
    assert!(matches!(Error::from(wikipedia::http::Error::Failed), Error::HTTPError));
}

#[test]
fn body_that_is_no_json_is_json_error() {
    let wikipedia = client(&["{\"query\":"]);
    match wikipedia.search("x") {
        Err(Error::JSONError(message)) => assert!(!message.is_empty()),
        other => panic!("{:?}", other),
    }
    assert!(matches!(read_document(Ok("nonsense".to_owned())), Err(Error::JSONError(_))));
}

#[test]
fn other_shape_is_json_path_error() {
    for body in ["{}", "[]", "{\"query\":{}}", "{\"query\":{\"search\":{}}}", "{\"error\":{\"code\":\"x\"}}", "{\"query\":[{\"search\":[]}]}"] {
        let wikipedia = client(&[body]);
        assert!(matches!(wikipedia.search("x"), Err(Error::JSONPathError)), "{}", body);
    }
}

#[test]
fn titles_keep_order_and_duplicates_and_pass_over_the_rest() {
    let doc = parse("{\"query\":{\"random\":[{\"title\":\"b\"},{\"id\":1},{\"title\":\"a\"},7,{\"title\":3},{\"title\":\"b\"}]}}").unwrap();
    assert_eq!(titles(&doc, "random").unwrap(), vec!["b".to_owned(), "a".to_owned(), "b".to_owned()]);
    assert!(matches!(titles(&doc, "search"), Err(Error::JSONPathError)));
}

#[test]
fn random_of_an_empty_list_is_nothing() {
    let wikipedia = client(&["{\"query\":{\"random\":[]}}"]);
    assert_eq!(wikipedia.random().unwrap(), None);
    assert_eq!(first_of(Ok(vec!["x".to_owned(), "y".to_owned()])).unwrap(), Some("x".to_owned()));
    assert!(matches!(first_of(Err(Error::HTTPError)), Err(Error::HTTPError)));
}

#[test]
fn parse_builds_the_document() {
    let doc = parse("{\"b\":[1,\"x\",null,true,{\"c\":2.5}],\"a\":\"s\"}").unwrap();
    let expected = Json::Object(vec![
        ("a".to_owned(), Json::String("s".to_owned())),
        ("b".to_owned(), Json::Array(vec![
            Json::Number(Some(1.0f64.to_bits())),
            Json::String("x".to_owned()),
            Json::Null,
            Json::Bool(true),
            Json::Object(vec![("c".to_owned(), Json::Number(Some(2.5f64.to_bits())))]),
        ])),
    ]);
    assert_eq!(doc, expected);
    assert_eq!(parse("\"{}\"").unwrap(), Json::String("{}".to_owned()));
    assert_eq!(parse("{\"a\":1,\"a\":2}").unwrap(), Json::Object(vec![("a".to_owned(), Json::Number(Some(2.0f64.to_bits())))]));
    assert_eq!(parse("-3").unwrap().as_bits(), Some((-3.0f64).to_bits()));
    assert!(parse("{").is_err());
    assert!(parse("").is_err());
    assert_ne!(parse("[1").unwrap_err(), "[1");
}

#[test]
fn document_access() {
    let doc = parse("{\"a\":{\"b\":[10,\"x\"]},\"c\":\"d\"}").unwrap();
    assert_eq!(doc.get("c").and_then(|x| x.as_str()), Some("d"));
    assert!(doc.get("d").is_none());
    assert!(doc.get("c").unwrap().get("x").is_none());
    let list = doc.get("a").unwrap().get("b").unwrap();
    assert_eq!(list.at(0).unwrap().as_bits(), Some(10.0f64.to_bits()));
    assert_eq!(list.at(1).unwrap().as_str(), Some("x"));
    assert!(list.at(2).is_none());
    assert!(list.get("b").is_none());
    assert_eq!(list.as_array().unwrap().len(), 2);
    assert!(list.as_object().is_none());
    assert_eq!(doc.as_object().unwrap().len(), 2);
    assert!(doc.at(0).is_none());
    let owned = parse("{\"a\":{\"b\":1},\"c\":2}").unwrap();
    let inner = owned.take("a").unwrap();
    assert_eq!(inner.into_members().unwrap(), vec![("b".to_owned(), Json::Number(Some(1.0f64.to_bits())))]);
    assert!(Json::Null.take("a").is_none());
    assert!(Json::Null.into_members().is_none());
}

#[test]
fn request_url_carries_the_parameters() {
    let params = vec![pair("format", "json"), pair("srsearch", "hello world&x")];
    assert_eq!(request_url("https://en.wikipedia.org/w/api.php", &params).unwrap(),
        "https://en.wikipedia.org/w/api.php?format=json&srsearch=hello+world%26x");
    assert_eq!(request_url("https://example.net?a=b", &vec![pair("c", "d")]).unwrap(),
        "https://example.net/?a=b&c=d");
    assert!(matches!(request_url("not a url", &params), Err(wikipedia::http::Error::InvalidUrl)));
    assert!(matches!(request_url("", &params), Err(wikipedia::http::Error::InvalidUrl)));
}

#[test]
fn request_that_is_too_long_has_no_url() {
    let long = "a".repeat(0x400_0000);
    let address = "https://example.net/";
    assert!(request_fits(address, &vec![]));
    assert!(request_fits("", &vec![pair(&long[..0x400_0000 - 2], "")]));
    assert!(!request_fits("x", &vec![pair(&long[..0x400_0000 - 2], "")]));
    assert!(!request_fits(&long, &vec![pair("", "")]));
    assert!(request_fits(&long, &vec![]));
    assert!(!request_fits(address, &vec![pair("k", &long)]));
    assert!(!request_fits(address, &vec![pair(&long, "v")]));
    assert!(!request_fits(address, &vec![pair("k", &long[..0x200_0000]), pair("k", &long[..0x200_0000])]));
    assert!(matches!(request_url(address, &vec![pair("k", &long)]), Err(wikipedia::http::Error::InvalidUrl)));
    assert!(matches!(request_url(&format!("{}{}", address, long), &vec![]), Err(wikipedia::http::Error::InvalidUrl)));
    assert_eq!(request_url(address, &vec![pair("k", "ñ ñ")]).unwrap(), "https://example.net/?k=%C3%B1+%C3%B1");
}

#[test]
fn questions_about_a_page() {
    assert_eq!(content_operation(), vec![
        pair("prop", "extracts|revisions"), pair("explaintext", ""), pair("rvprop", "ids"), pair("redirects", "")]);
    assert_eq!(html_operation(), vec![
        pair("prop", "revisions"), pair("rvprop", "content"), pair("rvlimit", "1"), pair("rvparse", ""), pair("redirects", "")]);
    assert_eq!(summary_operation(), vec![
        pair("prop", "extracts"), pair("explaintext", ""), pair("exintro", ""), pair("redirects", "")]);
    assert_eq!(coordinates_operation(), vec![
        pair("prop", "coordinates"), pair("colimit", "max"), pair("redirects", "")]);
}

#[test]
fn redirect_is_asked_by_title_with_the_same_question() {
    let redirect = "{\"query\":{\"redirects\":[{\"to\":\"hello world\"}]}}";
    let asked = |wikipedia: &Wikipedia<Scripted>, first: (String, String), operation: Vec<(String, String)>| {
        let requests = wikipedia.client.requests.lock().unwrap();
        assert_eq!(requests.len(), 2);
        for (request, target) in requests.iter().zip([first, pair("titles", "hello world")]) {
            let mut expected = operation.clone();
            expected.extend([pair("format", "json"), pair("action", "query"), target]);
            assert_eq!(request.0, "https://en.wikipedia.org/w/api.php");
            assert_eq!(request.1, expected);
        }
    };
    let wikipedia = client(&[redirect, "{\"query\":{\"pages\":{\"a\":{\"extract\":\"hello\"}}}}"]);
    assert_eq!(wikipedia.page_from_title("Parkinson's law of triviality".to_owned()).get_content().unwrap(), "hello");
    asked(&wikipedia, pair("titles", "Parkinson's law of triviality"), content_operation());
    let wikipedia = client(&[redirect, "{\"query\":{\"pages\":{\"a\":{\"extract\":\"wrong\",\"revisions\":[{\"*\":\"hello\"}]}}}}"]);
    assert_eq!(wikipedia.page_from_pageid("4138548".to_owned()).get_html_content().unwrap(), "hello");
    asked(&wikipedia, pair("pageids", "4138548"), html_operation());
    let wikipedia = client(&[redirect, "{\"query\":{\"pages\":{\"a\":{\"extract\":\"hello\"}}}}"]);
    assert_eq!(wikipedia.page_from_title("Parkinson's law of triviality".to_owned()).get_summary().unwrap(), "hello");
    asked(&wikipedia, pair("titles", "Parkinson's law of triviality"), summary_operation());
    let wikipedia = client(&[redirect, "{\"query\":{\"pages\":{\"a\":{}}}}"]);
    assert_eq!(wikipedia.page_from_pageid("4138548".to_owned()).get_coordinates().unwrap(), None);
    asked(&wikipedia, pair("pageids", "4138548"), coordinates_operation());
}

#[test]
fn page_is_addressed_by_title_or_page_id() {
    let wikipedia = client(&[]);
    let by_title = wikipedia.page_from_title("A".to_owned());
    let by_id = Page::from_pageid(&wikipedia, "A".to_owned());
    assert!(by_title == Page::from_title(&wikipedia, "A".to_owned()));
    assert!(by_title != by_id);
    assert!(by_id == wikipedia.page_from_pageid("A".to_owned()));
    assert!(by_title != wikipedia.page_from_title("B".to_owned()));
    assert!(by_id != wikipedia.page_from_pageid("B".to_owned()));
}

#[test]
fn page_content_is_read_from_the_first_page() {
    let doc = parse("{\"query\":{\"pages\":{\"7\":{\"extract\":\"seven\",\"revisions\":[{\"*\":\"<p>7</p>\"}]},\"9\":{\"extract\":\"nine\"}}}}").unwrap();
    assert_eq!(extract(&doc).unwrap(), "seven");
    assert_eq!(html(&doc).unwrap(), "<p>7</p>");
    for body in ["{}", "{\"query\":{\"pages\":{}}}", "{\"query\":{\"pages\":[]}}", "{\"query\":{\"pages\":{\"a\":{}}}}", "{\"query\":{\"pages\":{\"a\":{\"extract\":1,\"revisions\":[]}}}}"] {
        let doc = parse(body).unwrap();
        assert!(matches!(extract(&doc), Err(Error::JSONPathError)), "{}", body);
        assert!(matches!(html(&doc), Err(Error::JSONPathError)), "{}", body);
    }
}

#[test]
fn coordinates_cases() {
    let of = |body: &str| coordinates(&parse(body).unwrap());
    assert_eq!(of("{\"query\":{\"pages\":{\"a\":{\"coordinates\":[{\"lat\":2,\"lon\":-1}]}}}}").unwrap(),
        Some((2.0f64.to_bits(), (-1.0f64).to_bits())));
    assert_eq!(of("{\"query\":{\"pages\":{\"a\":{}}}}").unwrap(), None);
    assert_eq!(of("{\"query\":{\"pages\":{\"a\":{\"coordinates\":[]}}}}").unwrap(), None);
    assert_eq!(of("{\"query\":{\"pages\":{\"a\":{\"coordinates\":{}}}}}").unwrap(), None);
    assert_eq!(of("{\"query\":{\"pages\":{\"a\":{\"coordinates\":[7]}}}}").unwrap(), None);
    assert!(matches!(of("{\"query\":{\"pages\":{\"a\":{\"coordinates\":[{\"lat\":2}]}}}}"), Err(Error::JSONPathError)));
    assert!(matches!(of("{\"query\":{\"pages\":{\"a\":{\"coordinates\":[{\"lat\":\"2\",\"lon\":1}]}}}}"), Err(Error::JSONPathError)));
    assert!(matches!(of("{\"query\":{\"pages\":{}}}"), Err(Error::JSONPathError)));
    assert!(matches!(of("{}"), Err(Error::JSONPathError)));
}

#[test]
fn redirect_is_followed_once() {
    let redirect = "{\"query\":{\"redirects\":[{\"to\":\"B\"}],\"pages\":{\"a\":{\"extract\":\"of A\"}}}}";
    let wikipedia = client(&[redirect, "{\"query\":{\"pages\":{\"b\":{\"extract\":\"of B\"}}}}"]);
    assert_eq!(wikipedia.page_from_pageid("1".to_owned()).get_content().unwrap(), "of B");
    assert_eq!(sent(&wikipedia), 2);
    assert_eq!(last_of(&wikipedia, 0), pair("pageids", "1"));
    assert_eq!(last_of(&wikipedia, 1), pair("titles", "B"));

    let wikipedia = client(&[redirect, "{\"query\":{\"redirects\":[{\"to\":\"C\"}]}}", "{}"]);
    assert!(matches!(wikipedia.page_from_title("A".to_owned()).get_html_content(), Err(Error::JSONPathError)));
    assert_eq!(sent(&wikipedia), 2);

    let wikipedia = client(&[redirect]);
    wikipedia.client.answers.lock().unwrap().push(Err(wikipedia::http::Error::Failed));
    assert!(matches!(wikipedia.page_from_title("A".to_owned()).get_coordinates(), Err(Error::HTTPError)));
    assert_eq!(sent(&wikipedia), 2);
}

#[test]
fn what_follows_an_answer() {
    let redirect = || Ok(parse("{\"query\":{\"redirects\":[{\"to\":\"B\"},{\"to\":\"C\"}]}}").unwrap());
    assert!(matches!(after_answer(redirect(), 0), Step::Follow(t) if t == "B"));
    assert!(matches!(after_answer(redirect(), 1), Step::Fail(Error::JSONPathError)));
    assert!(matches!(after_answer(Ok(parse("{\"query\":{\"redirects\":[]}}").unwrap()), 0), Step::Done(_)));
    assert!(matches!(after_answer(Ok(parse("{\"query\":{\"redirects\":[{\"to\":1}]}}").unwrap()), 0), Step::Done(_)));
    assert!(matches!(after_answer(Err(Error::HTTPError), 0), Step::Fail(Error::HTTPError)));
    let wikipedia = client(&[]);
    let page = wikipedia.page_from_title("A".to_owned());
    assert_eq!(page.redirect(&parse("{\"query\":{\"redirects\":[{\"to\":\"B\"}]}}").unwrap()), Some("B".to_owned()));
    assert_eq!(page.redirect(&parse("{}").unwrap()), None);
    assert_eq!(redirect_selection("hello world"), vec![pair("titles", "hello world")]);
    assert_eq!(page.selection(), vec![pair("titles", "A")]);
    assert_eq!(wikipedia.page_from_pageid("7".to_owned()).selection(), vec![pair("pageids", "7")]);
}

#[test]
fn continuation_token() {
    let of = |body: &str| continuation(&parse(body).unwrap());
    assert_eq!(of("{\"continue\":{\"b\":\"2\",\"a\":\"1\"}}").unwrap(), Some(vec![pair("a", "1"), pair("b", "2")]));
    assert_eq!(of("{\"continue\":{}}").unwrap(), Some(vec![]));
    assert_eq!(of("{}").unwrap(), None);
    assert_eq!(of("{\"continue\":\"x\"}").unwrap(), None);
    assert_eq!(of("[]").unwrap(), None);
    assert!(matches!(of("{\"continue\":{\"a\":\"1\",\"b\":2}}"), Err(Error::JSONPathError)));
    let wikipedia = client(&[]);
    let page = wikipedia.page_from_title("A".to_owned());
    assert_eq!(page.parse_cont(&parse("{\"continue\":{\"a\":\"1\"}}").unwrap()).unwrap(), Some(vec![pair("a", "1")]));
    assert_eq!(page.images_selection(&None), vec![pair("titles", "A"), pair("continue", "")]);
    assert_eq!(page.images_selection(&Some(vec![pair("x", "y"), pair("z", "")])),
        vec![pair("titles", "A"), pair("x", "y"), pair("z", "")]);
}

#[test]
fn image_of_a_page_document() {
    let image = read_image(&parse("{\"title\":\"T\",\"imageinfo\":[{\"url\":\"U\",\"descriptionurl\":\"D\"},{\"url\":\"V\"}]}").unwrap()).unwrap();
    assert_eq!(image, Image { url: "U".to_owned(), title: "T".to_owned(), description_url: "D".to_owned() });
    for body in ["{}", "{\"title\":\"T\"}", "{\"title\":\"T\",\"imageinfo\":[]}", "{\"title\":\"T\",\"imageinfo\":[{\"url\":\"U\"}]}",
        "{\"imageinfo\":[{\"url\":\"U\",\"descriptionurl\":\"D\"}]}", "{\"title\":1,\"imageinfo\":[{\"url\":\"U\",\"descriptionurl\":\"D\"}]}"] {
        assert!(matches!(read_image(&parse(body).unwrap()), Err(Error::JSONPathError)), "{}", body);
    }
}

#[test]
fn images_are_listed_piece_by_piece() {
    let image = |n: u32| format!("\"p{}\":{{\"title\":\"T{}\",\"imageinfo\":[{{\"url\":\"U{}\",\"descriptionurl\":\"D{}\"}}]}}", n, n, n, n);
    let first = format!("{{\"continue\":{{\"gimcontinue\":\"7\",\"continue\":\"gimcontinue||\"}},\"query\":{{\"pages\":{{{},{}}}}}}}", image(1), image(2));
    let empty = "{\"continue\":{\"gimcontinue\":\"8\"},\"query\":{\"pages\":{}}}".to_owned();
    let broken = "{\"continue\":{\"gimcontinue\":\"9\"},\"query\":{\"pages\":{\"p3\":{\"title\":\"T3\"},\"p4\":{\"title\":\"T4\",\"imageinfo\":[{\"url\":\"U4\",\"descriptionurl\":\"D4\"}]}}}}".to_owned();
    let last = format!("{{\"query\":{{\"pages\":{{{}}}}}}}", image(5));
    let wikipedia = client(&[&first, &empty, &broken, &last]);
    wikipedia.client.answers.lock().unwrap().insert(3, Err(wikipedia::http::Error::Failed));
    let page = wikipedia.page_from_pageid("42".to_owned());
    let mut listing = page.get_images().unwrap();
    assert_eq!(sent(&wikipedia), 1);
    assert_eq!(listing.next().unwrap().unwrap().title, "T1");
    assert_eq!(listing.next().unwrap().unwrap().url, "U2");
    assert_eq!(sent(&wikipedia), 1);
    assert_eq!(listing.next().unwrap(), None);
    assert_eq!(sent(&wikipedia), 2);
    assert!(matches!(listing.next(), Err(Error::JSONPathError)));
    assert_eq!(sent(&wikipedia), 3);
    assert_eq!(listing.next().unwrap().unwrap().description_url, "D4");
    assert!(matches!(listing.next(), Err(Error::HTTPError)));
    assert_eq!(sent(&wikipedia), 4);
    assert_eq!(listing.next().unwrap().unwrap().title, "T5");
    assert_eq!(sent(&wikipedia), 5);
    assert_eq!(listing.next().unwrap(), None);
    assert_eq!(listing.next().unwrap(), None);
    assert_eq!(sent(&wikipedia), 5);
    let requests = wikipedia.client.requests.lock().unwrap();
    assert_eq!(requests[0].1[6..], [pair("pageids", "42"), pair("continue", "")]);
    assert_eq!(requests[1].1[6..], [pair("pageids", "42"), pair("continue", "gimcontinue||"), pair("gimcontinue", "7")]);
    assert_eq!(requests[2].1[6..], [pair("pageids", "42"), pair("gimcontinue", "8")]);
    assert_eq!(requests[3].1[6..], [pair("pageids", "42"), pair("gimcontinue", "9")]);
    assert_eq!(requests[4].1[6..], [pair("pageids", "42"), pair("gimcontinue", "9")]);
}

#[test]
fn images_page_size_follows_configuration() {
    let mut wikipedia = client(&["{\"query\":{\"pages\":{}}}"]);
    wikipedia.images_results = "5".to_owned();
    let page = wikipedia.page_from_title("A".to_owned());
    assert_eq!(page.get_images().unwrap().next().unwrap(), None);
    assert!(wikipedia.client.requests.lock().unwrap()[0].1.contains(&pair("gimlimit", "5")));
}

#[test]
fn images_without_pages_fail() {
    for body in ["{}", "{\"query\":{}}", "{\"query\":{\"pages\":[]}}", "{\"continue\":{\"a\":1},\"query\":{\"pages\":{}}}"] {
        let wikipedia = client(&[body]);
        let page = wikipedia.page_from_title("A".to_owned());
        assert!(matches!(page.get_images(), Err(Error::JSONPathError)), "{}", body);
    }
}
