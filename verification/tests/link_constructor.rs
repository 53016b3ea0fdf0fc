use crawley::link::parts::{UriParts, UrlParts, UrlRejection};
use crawley::link::{LinkConstructionError, LinkConstructor};

#[test]
fn should_create_valid_link_construction_with_valid_domain() {
    let href = "https://crawler.io/base/path1/";

    let constructor = LinkConstructor::try_from(href);

    assert_eq!(constructor.is_ok(), true);
    let unwrapped_constructor = constructor.unwrap();
    assert_eq!(unwrapped_constructor.authority(), "crawler.io");
    assert_eq!(unwrapped_constructor.scheme(), "https");
    assert_eq!(unwrapped_constructor.path(), "/base/path1/");
}

#[test]
fn should_create_valid_link_construction_with_valid_domain_and_include_port_if_specified() {
    let href = "https://crawler.io:9089/base/path1/";

    let constructor = LinkConstructor::try_from(href);

    assert_eq!(constructor.is_ok(), true);
    let unwrapped_constructor = constructor.unwrap();
    assert_eq!(unwrapped_constructor.authority(), "crawler.io:9089");
    assert_eq!(unwrapped_constructor.scheme(), "https");
    assert_eq!(unwrapped_constructor.path(), "/base/path1/");
}

#[test]
fn should_create_valid_link_construction_with_valid_domain_and_should_omit_resource_from_path() {
    let href = "https://crawler.io/base/path1/index.html";

    let constructor = LinkConstructor::try_from(href);

    assert_eq!(constructor.is_ok(), true);
    let unwrapped_constructor = constructor.unwrap();
    assert_eq!(unwrapped_constructor.authority(), "crawler.io");
    assert_eq!(unwrapped_constructor.scheme(), "https");
    assert_eq!(unwrapped_constructor.path(), "/base/path1/");
}

#[test]
fn should_fail_construction_when_the_base_path_does_not_have_valid_scheme() {
    let href = "/crawler.io/base/path1/index.html";

    let constructor = LinkConstructor::try_from(href);

    assert_eq!(constructor.is_ok(), false);
    assert_eq!(constructor.err().unwrap(), LinkConstructionError::MissingScheme)
}

#[test]
fn should_fail_construction_when_the_base_path_is_invalid() {
    let href = "ssdsdsd/crawler.io/base/path1/index.html";

    let constructor = LinkConstructor::try_from(href);

    assert_eq!(constructor.is_ok(), false);
    assert_eq!(
        constructor.err().unwrap(),
        LinkConstructionError::ParseError("InvalidUri(InvalidFormat)".to_string())
    )
}

#[test]
fn should_construct_link_for_links_with_entire_url() {
    let href = "https://crawler.io/base/path1/page.html";
    let constructor = LinkConstructor::try_from(href).unwrap();

    let constructed = constructor.construct("https://domain.crawler.io/base/page1.html");

    assert_eq!(constructed.is_ok(), true);
    assert_eq!(constructed.unwrap(), "https://domain.crawler.io/base/page1.html");
}

#[test]
fn should_construct_link_for_links_that_start_with_relative_url() {
    let href = "https://crawler.io/base/path1/page.html";
    let constructor = LinkConstructor::try_from(href).unwrap();

    let constructed = constructor.construct("01_getting_started/01_chapter.html");

    assert_eq!(constructed.is_ok(), true);
    assert_eq!(
        constructed.unwrap(),
        "https://crawler.io/base/path1/01_getting_started/01_chapter.html"
    );
}

#[test]
fn should_construct_link_for_links_that_start_with_absolute_path() {
    let href = "https://crawler.io/base/path1/page.html";
    let constructor = LinkConstructor::try_from(href).unwrap();

    let constructed = constructor.construct("/01_getting_started/01_chapter.html");

    assert_eq!(constructed.is_ok(), true);
    assert_eq!(constructed.unwrap(), "https://crawler.io/01_getting_started/01_chapter.html");
}

#[test]
fn should_construct_link_for_links_with_absolute_url_without_scheme() {
    let href = "https://crawler.io/base/path1/page.html";
    let constructor = LinkConstructor::try_from(href).unwrap();

    let constructed = constructor.construct("//crawler.io/base/path1/page2.html");

    assert_eq!(constructed.is_ok(), true);
    assert_eq!(constructed.unwrap(), "https://crawler.io/base/path1/page2.html");
}

#[test]
fn should_construct_link_for_links_that_start_with_relative_url_with_just_page_name() {
    let href = "https://crawler.io/base/path1/page.html";
    let constructor = LinkConstructor::try_from(href).unwrap();

    let constructed = constructor.construct("chapter.html");

    assert_eq!(constructed.is_ok(), true);
    assert_eq!(constructed.unwrap(), "https://crawler.io/base/path1/chapter.html");
}

#[test]
fn should_construct_link_for_links_that_start_with_relative_url_with_dot_dot_relative_url() {
    let href = "https://crawler.io/base/path1/page.html";
    let constructor = LinkConstructor::try_from(href).unwrap();

    let constructed = constructor.construct("../chapter.html");

    assert_eq!(constructed.is_ok(), true);
    assert_eq!(constructed.unwrap(), "https://crawler.io/base/path1/../chapter.html");
}

#[test]
fn should_construct_link_for_self_referencing_paths() {
    let href = "https://crawler.io/base/path1/index.html";
    let constructor = LinkConstructor::try_from(href).unwrap();

    let constructed = constructor.construct("#bottom");

    assert_eq!(constructed.is_ok(), true);
    assert_eq!(constructed.unwrap(), "https://crawler.io/base/path1/index.html");
}

#[test]
fn javascript_href_is_a_bad_uri() {
    let constructor = LinkConstructor::try_from("https://crawler.io/base/path1/page.html").unwrap();

    assert_eq!(constructor.construct("javascript:x"), Err(LinkConstructionError::BadUri));
    assert_eq!(constructor.construct("javascript:void(0)"), Err(LinkConstructionError::BadUri));
}

#[test]
fn fragment_href_is_the_page_whatever_the_page() {
    for page in [
        "http://test.com/a.html",
        "https://crawler.io:9089/base/path1/",
        "http://test.com",
        "ftp://files.test.com/pub/readme.txt?raw=1",
    ] {
        let constructor = LinkConstructor::try_from(page).unwrap();
        assert_eq!(constructor.parent(), page);
        assert_eq!(constructor.construct("#x").unwrap(), page);
        assert_eq!(constructor.construct("#anywhere").unwrap(), page);
        assert_eq!(constructor.construct("#").unwrap(), page);
    }
}

#[test]
fn scheme_relative_href_takes_the_scheme_of_the_page() {
    let secure = LinkConstructor::try_from("https://crawler.io/base/page.html").unwrap();
    let plain = LinkConstructor::try_from("http://crawler.io/base/page.html").unwrap();

    assert_eq!(secure.construct("//h/p").unwrap(), "https://h/p");
    assert_eq!(plain.construct("//h/p").unwrap(), "http://h/p");
}

#[test]
fn root_relative_href_keeps_scheme_and_authority() {
    let constructor = LinkConstructor::try_from("http://test.com:8080/a/b/page.html").unwrap();

    assert_eq!(constructor.construct("/p").unwrap(), "http://test.com:8080/p");
    assert_eq!(constructor.construct("/").unwrap(), "http://test.com:8080/");
    assert_eq!(constructor.construct("/p:q").unwrap(), "http://test.com:8080/p:q");
}

#[test]
fn path_relative_href_is_appended_to_the_directory() {
    let constructor = LinkConstructor::try_from("http://test.com/a/b/page.html").unwrap();

    assert_eq!(constructor.path(), "/a/b/");
    assert_eq!(constructor.construct("p").unwrap(), "http://test.com/a/b/p");
    assert_eq!(constructor.construct("").unwrap(), "http://test.com/a/b/");
    assert_eq!(constructor.construct("./p").unwrap(), "http://test.com/a/b/./p");
    assert_eq!(constructor.construct("?q=1").unwrap(), "http://test.com/a/b/?q=1");
}

#[test]
fn absolute_href_on_the_same_site_comes_back_unchanged() {
    let constructor = LinkConstructor::try_from("http://test.com/a/b/").unwrap();

    assert_eq!(constructor.construct("http://test.com/a/b/c.html").unwrap(), "http://test.com/a/b/c.html");
    assert_eq!(constructor.construct("http://test.com/").unwrap(), "http://test.com/");
}

#[test]
fn absolute_href_is_written_as_the_parser_writes_it() {
    let constructor = LinkConstructor::try_from("http://test.com/a/b/").unwrap();

    assert_eq!(constructor.construct("http://test.com").unwrap(), "http://test.com/");
    assert_eq!(constructor.construct("HTTP://TEST.com/x").unwrap(), "http://test.com/x");
    assert_eq!(constructor.construct("mailto:someone@test.com").unwrap(), "mailto:someone@test.com");
}

#[test]
fn href_that_the_parser_rejects_for_another_reason_is_a_bad_uri() {
    let constructor = LinkConstructor::try_from("http://test.com/a/b/").unwrap();

    assert_eq!(constructor.construct("http://"), Err(LinkConstructionError::BadUri));
    assert_eq!(constructor.construct("//"), Err(LinkConstructionError::BadUri));
    assert_eq!(constructor.construct("http://test.com:99999/"), Err(LinkConstructionError::BadUri));
}

#[test]
fn directory_of_a_page_without_a_path_is_the_root() {
    let constructor = LinkConstructor::try_from("http://test.com").unwrap();

    assert_eq!(constructor.scheme(), "http");
    assert_eq!(constructor.authority(), "test.com");
    assert_eq!(constructor.path(), "/");
    assert_eq!(constructor.construct("p").unwrap(), "http://test.com/p");
}

#[test]
fn directory_ignores_the_query_of_the_page() {
    let constructor = LinkConstructor::try_from("http://test.com/a/b/page.html?x=/y/z").unwrap();

    assert_eq!(constructor.path(), "/a/b/");
}

#[test]
fn page_without_scheme_is_refused_as_missing_scheme() {
    assert_eq!(LinkConstructor::try_from("test.com").err(), Some(LinkConstructionError::MissingScheme));
    assert_eq!(LinkConstructor::try_from("/a/b").err(), Some(LinkConstructionError::MissingScheme));
}

#[test]
fn page_that_is_no_uri_is_refused_with_what_the_parser_said() {
    assert_eq!(
        LinkConstructor::try_from("").err(),
        Some(LinkConstructionError::ParseError("InvalidUri(Empty)".to_string()))
    );
    assert_eq!(
        LinkConstructor::try_from("http://test.com/a b").err(),
        Some(LinkConstructionError::ParseError("InvalidUri(InvalidUriChar)".to_string()))
    );
}

#[test]
fn constructor_from_parts_follows_the_parts() {
    let parts = UriParts {
        scheme: Some("gopher".to_string()),
        authority: None,
        path: "x/y/z".to_string(),
    };
    let constructor = LinkConstructor::from_parts("anything", Ok(parts)).unwrap();
    assert_eq!(constructor.scheme(), "gopher");
    assert_eq!(constructor.authority(), "");
    assert_eq!(constructor.path(), "x/y/");
    assert_eq!(constructor.parent(), "anything");

    let no_scheme = UriParts { scheme: None, authority: Some("h".to_string()), path: "/".to_string() };
    assert_eq!(
        LinkConstructor::from_parts("h", Ok(no_scheme)).err(),
        Some(LinkConstructionError::MissingScheme)
    );
    assert_eq!(
        LinkConstructor::from_parts("h", Err("why".to_string())).err(),
        Some(LinkConstructionError::ParseError("why".to_string()))
    );
}

#[test]
fn construct_parsed_follows_the_outcome_of_the_parser() {
    let constructor = LinkConstructor::try_from("http://test.com/a/b/page.html").unwrap();
    let relative = || UrlRejection { relative_without_base: true, detail: "RelativeUrlWithoutBase".to_string() };
    let other = || UrlRejection { relative_without_base: false, detail: "EmptyHost".to_string() };
    let parsed = || UrlParts { text: "http://other.com/".to_string(), host: Some("other.com".to_string()) };

    assert_eq!(constructor.construct_parsed("x", Ok(parsed())).unwrap(), "http://other.com/");
    assert_eq!(constructor.construct_parsed("x", Err(relative())).unwrap(), "http://test.com/a/b/x");
    assert_eq!(constructor.construct_parsed("/x", Err(relative())).unwrap(), "http://test.com/x");
    assert_eq!(constructor.construct_parsed("//x", Err(relative())).unwrap(), "http://test.com//x");
    assert_eq!(constructor.construct_parsed("x", Err(other())), Err(LinkConstructionError::BadUri));
    assert_eq!(constructor.construct_parsed("#x", Err(other())).unwrap(), "http://test.com/a/b/page.html");
    assert_eq!(constructor.construct_parsed("javascript:x", Ok(parsed())), Err(LinkConstructionError::BadUri));
}

#[test]
fn construct_all_keeps_the_order_and_drops_what_does_not_resolve() {
    let constructor = LinkConstructor::try_from("http://test.com/a/page.html").unwrap();
    let hrefs = vec![
        "b.html".to_string(),
        "javascript:void(0)".to_string(),
        "/c.html".to_string(),
        "http://".to_string(),
        "#top".to_string(),
        "b.html".to_string(),
    ];

    assert_eq!(
        constructor.construct_all(&hrefs),
        vec![
            "http://test.com/a/b.html",
            "http://test.com/c.html",
            "http://test.com/a/page.html",
            "http://test.com/a/b.html"
        ]
    );
    assert_eq!(constructor.construct_all(&vec![]), Vec::<String>::new());
}

#[test]
fn link_construction_errors_read_as_their_reason() {
    assert_eq!(LinkConstructionError::MissingScheme.to_string(), ": Uri is missing scheme");
    assert_eq!(LinkConstructionError::BadUri.to_string(), ": Bad Uri. Cannot parse");
    assert_eq!(
        LinkConstructionError::ParseError("InvalidUri(InvalidFormat)".to_string()).to_string(),
        ": InvalidUri(InvalidFormat)"
    );
    assert_eq!(
        LinkConstructionError::from_invalid_uri("x".to_string()),
        LinkConstructionError::ParseError("x".to_string())
    );
    assert_eq!(
        LinkConstructionError::from_parse_error("EmptyHost"),
        LinkConstructionError::ParseError(
            "Bad URL(EmptyHost). Should be in format of scheme://domain/path.".to_string()
        )
    );
}
