use traggo_mcp::cursor::PageCursor;

#[test]
fn round_trips_cursor() {
    let cursor = PageCursor {
        offset: 50,
        start_id: 1234,
        page_size: 50,
    };
    let token = cursor.encode().expect("encode");
    let decoded = PageCursor::decode(&token).expect("decode");
    assert_eq!(decoded.offset, 50);
    assert_eq!(decoded.start_id, 1234);
    assert_eq!(decoded.page_size, 50);
}

#[test]
fn rejects_garbage_token() {
    let err = PageCursor::decode("not a token!!!").expect_err("invalid token");
    assert!(err.to_string().contains("pagination token"));
}

#[test]
fn cursor_json_is_compact_and_ordered() {
    let cursor = PageCursor {
        offset: -7,
        start_id: 0,
        page_size: 200,
    };
    assert_eq!(
        String::from_utf8(cursor.to_json()).expect("ascii"),
        "{\"offset\":-7,\"start_id\":0,\"page_size\":200}"
    );
}

#[test]
fn token_is_unpadded_url_safe_base64_of_the_json() {
    let cursor = PageCursor {
        offset: 50,
        start_id: 1234,
        page_size: 50,
    };
    assert_eq!(
        cursor.encode().expect("encode"),
        "eyJvZmZzZXQiOjUwLCJzdGFydF9pZCI6MTIzNCwicGFnZV9zaXplIjo1MH0"
    );
}

#[test]
fn extreme_values_round_trip() {
    for cursor in [
        PageCursor { offset: i64::MIN, start_id: i64::MAX, page_size: -1 },
        PageCursor { offset: 0, start_id: 0, page_size: 0 },
        PageCursor { offset: 9, start_id: 10, page_size: 99 },
    ] {
        let token = cursor.encode().expect("encode");
        assert_eq!(PageCursor::decode(&token).expect("decode"), cursor);
    }
}

#[test]
fn decodes_json_written_another_way() {
    let cursor = PageCursor::decode(
        "eyAicGFnZV9zaXplIiA6IDcsICJvZmZzZXQiOiAtMywgInN0YXJ0X2lkIjogOSwgImV4dHJhIjogWzEsIHsiYSI6IG51bGx9XSB9",
    )
    .expect("decode");
    assert_eq!(cursor, PageCursor { offset: -3, start_id: 9, page_size: 7 });
}

#[test]
fn rejects_incomplete_or_fractional_cursors() {
    let err = PageCursor::decode("eyJvZmZzZXQiOjEsInN0YXJ0X2lkIjoyfQ").expect_err("missing");
    assert_eq!(
        err.to_string(),
        "validation error: cursor is not a valid pagination token"
    );
    assert!(PageCursor::decode("eyJvZmZzZXQiOjEuNSwic3RhcnRfaWQiOjIsInBhZ2Vfc2l6ZSI6M30").is_err());
    assert!(PageCursor::decode("").is_err());
    assert!(PageCursor::decode("eyJvZmZzZXQiOjUwLCJzdGFydF9pZCI6MTIzNCwicGFnZV9zaXplIjo1MH0=").is_err());
}

#[test]
fn tokens_use_only_url_safe_characters() {
    for cursor in [
        PageCursor { offset: -1, start_id: 62, page_size: 63 },
        PageCursor { offset: i64::MAX, start_id: i64::MIN, page_size: 7 },
    ] {
        let token = cursor.encode().expect("encode");
        assert!(!token.is_empty());
        assert!(token.chars().all(|c| c.is_ascii_alphanumeric() || c == '-' || c == '_'));
        let json_len = cursor.to_json().len();
        assert_eq!(token.len(), 4 * (json_len / 3) + if json_len % 3 == 0 { 0 } else { json_len % 3 + 1 });
    }
}

#[test]
fn decodes_the_array_form() {
    // base64url of `[4,5,6]`, `[4,5]` and `[4,5,6,7]`
    assert_eq!(
        PageCursor::decode("WzQsNSw2XQ").expect("decode"),
        PageCursor { offset: 4, start_id: 5, page_size: 6 }
    );
    assert!(PageCursor::decode("WzQsNV0").is_err());
    assert!(PageCursor::decode("WzQsNSw2LDdd").is_err());
}

#[test]
fn rejects_tokens_outside_the_url_safe_alphabet() {
    let err = PageCursor::decode("not a token!!!").expect_err("invalid token");
    assert_eq!(err.to_string(), "validation error: cursor is not a valid pagination token");
    let padded = format!("{}=", PageCursor { offset: 1, start_id: 2, page_size: 3 }.encode().unwrap());
    assert!(PageCursor::decode(&padded).is_err());
}
