use dik_dik::notify::{committee_message_url, TOKEMAK_COMMITTEE_TELEGRAM_CHAT_ID};
use dik_dik::text::contains_subslice;

#[test]
fn committee_url_percent_encodes_the_message() {
    let url = committee_message_url("WETH health ratio: 1.000", "BOTTOKEN123");
    assert_eq!(
        url,
        "https://api.telegram.org/botBOTTOKEN123/sendMessage?chat_id=-1001175962929\
         &text=WETH%20health%20ratio%3A%201.000"
    );
}

#[test]
fn committee_url_keeps_safe_characters() {
    let url = committee_message_url("ok", "T");
    assert_eq!(
        url,
        "https://api.telegram.org/botT/sendMessage?chat_id=-1001175962929&text=ok"
    );
}

#[test]
fn chat_id_matches_its_rendering_in_the_url() {
    assert_eq!(TOKEMAK_COMMITTEE_TELEGRAM_CHAT_ID, -1001175962929i64);
    let url = committee_message_url("x", "T");
    assert!(url.contains("-1001175962929"));
}

#[test]
fn substring_search_finds_and_rejects() {
    assert!(contains_subslice(&b"crvUSDC Pool".to_vec(), &b"USDC".to_vec()));
    assert!(contains_subslice(&b"USDC".to_vec(), &b"USDC".to_vec()));
    assert!(contains_subslice(&b"abc".to_vec(), &b"".to_vec()));
    assert!(!contains_subslice(&b"Curve 3Pool".to_vec(), &b"USDC".to_vec()));
    assert!(!contains_subslice(&b"usdc".to_vec(), &b"USDC".to_vec())); // case-sensitive
    assert!(!contains_subslice(&b"US".to_vec(), &b"USDC".to_vec()));
}
