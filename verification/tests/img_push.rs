use add_to_notion::img_push::{source_url, HostReply, ImgPush};

#[test]
fn new_keeps_the_base_url() {
    let host = ImgPush::new("https://img.example".to_string());
    assert_eq!(host.url(), "https://img.example");
}

#[test]
fn public_url_is_base_slash_filename() {
    let host = ImgPush::new("https://img.example".to_string());
    let reply = HostReply::Answered { filename: Some("abc.png".to_string()) };
    assert_eq!(host.upload(reply), Ok("https://img.example/abc.png".to_string()));
}

#[test]
fn base_url_is_used_as_given() {
    let host = ImgPush::new("https://img.example/".to_string());
    let reply = HostReply::Answered { filename: Some("abc.png".to_string()) };
    assert_eq!(host.upload(reply), Ok("https://img.example//abc.png".to_string()));
}

#[test]
fn unreadable_answer_fails_softly() {
    let host = ImgPush::new("https://img.example".to_string());
    assert_eq!(
        host.upload(HostReply::Answered { filename: None }),
        Err("Error uploading image".to_string())
    );
}

#[test]
fn error_status_fails_with_its_reason() {
    let host = ImgPush::new("https://img.example".to_string());
    assert_eq!(
        host.upload(HostReply::Failed { reason: "HTTP status server error (500)".to_string() }),
        Err("HTTP status server error (500)".to_string())
    );
}

#[test]
fn file_url_holds_token_and_path() {
    assert_eq!(
        source_url("123:ABC", "photos/file_7.jpg"),
        "https://api.telegram.org/file/bot123:ABC/photos/file_7.jpg"
    );
}
