use rscreenrec::assets::{asset_name, static_reply, StaticReply};

#[test]
fn root_path_names_index() {
    assert_eq!(asset_name("/"), "index.html");
    assert_eq!(asset_name(""), "index.html");
    assert_eq!(asset_name("///"), "index.html");
}

#[test]
fn leading_slashes_are_dropped() {
    assert_eq!(asset_name("/assets/app.js"), "assets/app.js");
    assert_eq!(asset_name("//x/y.css"), "x/y.css");
    assert_eq!(asset_name("a/"), "a/");
}

#[test]
fn existing_asset_is_served_with_its_type() {
    match static_reply("assets/app.js", true, true) {
        StaticReply::Asset { name, mime } => {
            assert_eq!(name, "assets/app.js");
            assert_eq!(mime, "text/javascript");
        }
        StaticReply::NotFound => panic!("asset expected"),
    }
    match static_reply("style.CSS", true, false) {
        StaticReply::Asset { mime, .. } => assert_eq!(mime, "text/css"),
        StaticReply::NotFound => panic!("asset expected"),
    }
    match static_reply("favicon", true, false) {
        StaticReply::Asset { mime, .. } => assert_eq!(mime, "application/octet-stream"),
        StaticReply::NotFound => panic!("asset expected"),
    }
}

#[test]
fn missing_asset_falls_back_to_index() {
    let r = static_reply("settings", false, true);
    assert_eq!(r.status_code(), 200);
    match r {
        StaticReply::Asset { name, mime } => {
            assert_eq!(name, "index.html");
            assert_eq!(mime, "text/html");
        }
        StaticReply::NotFound => panic!("index expected"),
    }
}

#[test]
fn nothing_found() {
    let r = static_reply("settings", false, false);
    assert!(matches!(r, StaticReply::NotFound));
    assert_eq!(r.status_code(), 404);
    assert_eq!(StaticReply::not_found_body(), "404 Not Found");
}
