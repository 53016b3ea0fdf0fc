use crawley::client::crawl_client::{
    extract_links, links_of_response, present_hrefs, status_is_success,
};
use crawley::client::CrawlClientError;

#[test]
fn should_call_upstream_and_extract_links_on_successful_response() {
    let page1 = r#"
        <section>
        <ol>
            <li><a href="http://domain.com/some_page1.html">page 1</a></li>
            <li><a href="http://domain.com/some_page2.html">page 2</a></li>
        </ol>
        <a href="http://domain.com/home.html">home</a>
        </section>
        "#;

    let response = links_of_response(200, page1.as_bytes().to_vec());

    assert!(response.is_ok());
    assert_eq!(
        response.unwrap(),
        vec![
            "http://domain.com/some_page1.html",
            "http://domain.com/some_page2.html",
            "http://domain.com/home.html"
        ]
    )
}

#[test]
fn should_call_upstream_and_throw_error_on_failure() {
    let response = links_of_response(500, Vec::new());

    assert!(response.is_err());
    assert_eq!(response.err(), Some(CrawlClientError::ConnectionError))
}

#[test]
fn status_is_a_success_from_200_to_299() {
    assert!(!status_is_success(0));
    assert!(!status_is_success(199));
    assert!(status_is_success(200));
    assert!(status_is_success(204));
    assert!(status_is_success(299));
    assert!(!status_is_success(300));
    assert!(!status_is_success(404));
    assert!(!status_is_success(u16::MAX));
}

#[test]
fn non_success_status_is_a_connection_error_whatever_the_body() {
    let body = b"<a href=\"x\">x</a>".to_vec();

    assert_eq!(links_of_response(199, body.clone()), Err(CrawlClientError::ConnectionError));
    assert_eq!(links_of_response(301, body.clone()), Err(CrawlClientError::ConnectionError));
    assert_eq!(links_of_response(404, vec![0xff]), Err(CrawlClientError::ConnectionError));
    assert_eq!(links_of_response(299, body), Ok(vec!["x".to_string()]));
}

#[test]
fn body_that_is_not_utf8_is_an_encoding_error() {
    assert_eq!(links_of_response(200, vec![0xff, 0xfe]), Err(CrawlClientError::EncodingError));
    assert_eq!(links_of_response(200, vec![b'a', 0xc3]), Err(CrawlClientError::EncodingError));
    assert_eq!(links_of_response(200, vec![0xed, 0xa0, 0x80]), Err(CrawlClientError::EncodingError));
}

#[test]
fn body_is_decoded_as_utf8() {
    let body = "<a href=\"/caf\u{e9}\">caf\u{e9}</a>".as_bytes().to_vec();

    assert_eq!(links_of_response(200, body), Ok(vec!["/caf\u{e9}".to_string()]));
}

#[test]
fn empty_body_has_no_links() {
    assert_eq!(links_of_response(200, Vec::new()), Ok(Vec::<String>::new()));
    assert_eq!(extract_links(""), Vec::<String>::new());
    assert_eq!(extract_links("no anchors here"), Vec::<String>::new());
}

#[test]
fn anchors_are_read_in_document_order_raw_and_with_repeats() {
    let body = r##"<html><body>
        <a href="b.html">b</a>
        <div><a href="#top">top</a><p><a href="//h/p">h</a></p></div>
        <a href="b.html">again</a>
        <a href="javascript:void(0)">js</a>
        <a href="  spaced ">s</a>
        <a href="">empty</a>
        </body></html>"##;

    assert_eq!(
        extract_links(body),
        vec!["b.html", "#top", "//h/p", "b.html", "javascript:void(0)", "  spaced ", ""]
    );
}

#[test]
fn anchor_without_href_is_passed_over() {
    let body = r#"<a name="here">no href</a><a href="x">x</a><a>bare</a><link href="style.css"><a HREF="y">y</a>"#;

    assert_eq!(extract_links(body), vec!["x", "y"]);
}

#[test]
fn present_hrefs_keeps_what_is_there() {
    let attributes = vec![None, Some("a".to_string()), None, Some("b".to_string()), Some("a".to_string())];

    assert_eq!(present_hrefs(attributes), vec!["a", "b", "a"]);
    assert_eq!(present_hrefs(vec![None, None]), Vec::<String>::new());
    assert_eq!(present_hrefs(Vec::new()), Vec::<String>::new());
}

#[test]
fn outside_errors_become_client_errors() {
    let invalid_uri = "".parse::<hyper::Uri>().unwrap_err();
    assert_eq!(CrawlClientError::from(invalid_uri), CrawlClientError::InvalidUri);

    let io = std::io::Error::new(std::io::ErrorKind::UnexpectedEof, "cut short");
    assert_eq!(CrawlClientError::from(io), CrawlClientError::IOError);

    let encoding = String::from_utf8(vec![0xff]).unwrap_err();
    assert_eq!(CrawlClientError::from(encoding), CrawlClientError::EncodingError);
}

#[test]
fn client_errors_read_as_their_reason() {
    assert_eq!(CrawlClientError::InvalidUri.to_string(), "\"Invalid link or url\"\n");
    assert_eq!(
        CrawlClientError::ConnectionError.to_string(),
        "\"There was an error connection to the page\"\n"
    );
    assert_eq!(
        CrawlClientError::IOError.to_string(),
        "\"There was an error sending or receiving data\"\n"
    );
    assert_eq!(
        CrawlClientError::EncodingError.to_string(),
        "\"There was an error parsing encoded data\"\n"
    );
}
