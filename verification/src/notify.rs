//! The committee notification's computed part: the message-send URL for the
//! fixed committee chat, with the message text percent-encoded. Performing
//! the network call is the caller's business, not the library's.

use vstd::prelude::*;
use vstd::string::StringExecFns;

verus! {

/// The committee chat that audit results are reported to.
pub const TOKEMAK_COMMITTEE_TELEGRAM_CHAT_ID: i64 = -1001175962929;

/// What `urlencoding::encode` returns for a given text.
pub uninterp spec fn url_encoded(s: Seq<char>) -> Seq<char>;

/// Relies on urlencoding::encode: percent-encodes every byte except ASCII
/// alphanumerics and `-`, `_`, `.`, `~`. The result depends on the text
/// alone, and an empty text stays empty.
#[verifier::external_body]
fn url_encode(s: &str) -> (r: String)
    ensures
        r@ == url_encoded(s@),
        s@.len() == 0 ==> r@.len() == 0,
{
    urlencoding::encode(s).into_owned()
}

/// The send-message URL for the committee chat: the bot endpoint under the
/// given token, the fixed chat id (the digits of
/// `TOKEMAK_COMMITTEE_TELEGRAM_CHAT_ID`), and the encoded message text.
pub fn committee_message_url(message: &str, token: &str) -> (r: String)
    ensures
        r@ == "https://api.telegram.org/bot"@ + token@ + "/sendMessage?chat_id="@
            + "-1001175962929"@ + "&text="@ + url_encoded(message@),
{
    let mut url = String::from_str("https://api.telegram.org/bot");
    url.append(token);
    url.append("/sendMessage?chat_id=");
    url.append("-1001175962929");
    url.append("&text=");
    let encoded = url_encode(message);
    url.append(encoded.as_str());
    proof {
        assert(url@ =~= "https://api.telegram.org/bot"@ + token@ + "/sendMessage?chat_id="@
            + "-1001175962929"@ + "&text="@ + url_encoded(message@));
    }
    url
}

} // verus!
