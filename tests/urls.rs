use men_in_tights::api;
use men_in_tights::urls;

#[test]
fn url() {
    let expected = "https://api.robinhood.com/moneys";
    assert_eq!(api::url("moneys"), expected)
}

#[test]
fn api() {
    let expected = "https://api.robinhood.com/moneys";
    assert_eq!(urls::api("moneys"), expected)
}

#[test]
fn api_empty_path_keeps_slash() {
    assert_eq!(urls::api(""), "https://api.robinhood.com/");
}
