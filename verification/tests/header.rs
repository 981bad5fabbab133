use containerless::header::{inline_object_from_header, inline_object_into_header, IntoHeaderValue};
use containerless::models::InlineObject;

fn entry(text: Option<&str>, target: Option<&str>, level: Option<&str>) -> InlineObject {
    InlineObject {
        text: text.map(|s| s.to_string()),
        target: target.map(|s| s.to_string()),
        level: level.map(|s| s.to_string()),
    }
}

#[test]
fn entry_becomes_the_bytes_of_its_string() {
    let value = inline_object_into_header(IntoHeaderValue(entry(Some("hi"), None, Some("info"))));
    assert_eq!(value.unwrap().as_bytes(), b"text,hi,level,info");
}

#[test]
fn entry_with_a_tabulator_or_a_letter_beyond_ascii_is_a_header_value() {
    let value = inline_object_into_header(IntoHeaderValue(entry(Some("a\tb"), None, None)));
    assert_eq!(value.unwrap().as_bytes(), b"text,a\tb");
    let value = inline_object_into_header(IntoHeaderValue(entry(Some("caf\u{e9}"), None, None)));
    assert_eq!(value.unwrap().as_bytes(), "text,caf\u{e9}".as_bytes());
}

#[test]
fn entry_with_a_control_character_is_no_header_value() {
    for bad in ["a\nb", "a\u{0}", "\u{7f}", "\r"] {
        let value = inline_object_into_header(IntoHeaderValue(entry(Some(bad), None, None)));
        assert_eq!(
            value.unwrap_err(),
            format!(
                "Invalid header value for InlineObject - value: text,{} is invalid failed to parse header value",
                bad
            )
        );
    }
}

#[test]
fn header_value_gives_back_the_entry() {
    let object = entry(Some("hello world"), Some("dispatcher"), None);
    let value = inline_object_into_header(IntoHeaderValue(object.clone())).unwrap();
    let back = inline_object_from_header(&value).unwrap();
    assert_eq!(back.0, object);
}

#[test]
fn header_value_that_is_no_entry_is_reported() {
    let value = http::HeaderValue::from_static("colour,red");
    assert_eq!(
        inline_object_from_header(&value).unwrap_err(),
        "Unable to convert header value 'colour,red' into InlineObject - Unexpected key while parsing InlineObject"
    );
    let value = http::HeaderValue::from_static("");
    assert_eq!(
        inline_object_from_header(&value).unwrap_err(),
        "Unable to convert header value '' into InlineObject - Missing value while parsing InlineObject"
    );
}

#[test]
fn header_value_with_opaque_bytes_is_no_string() {
    let value = http::HeaderValue::from_bytes(b"text,\xfa").unwrap();
    assert_eq!(
        inline_object_from_header(&value).unwrap_err(),
        "Unable to convert header: \"text,\\xfa\" to string: failed to convert header to a str"
    );
    let value = inline_object_into_header(IntoHeaderValue(entry(Some("caf\u{e9}"), None, None)));
    assert!(inline_object_from_header(&value.unwrap()).is_err());
}
