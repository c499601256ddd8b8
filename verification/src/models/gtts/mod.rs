//! The Google translate speech backend.
//!
//! The backend renders a message by fetching one URL; everything up to the
//! fetch — the length ceiling, the percent-encoding of the message, and the
//! URL itself — is computed and specified here.  A message over the
//! provider's ceiling is rejected locally, before any request is prepared.

pub mod languages;
pub mod url;

use vstd::prelude::*;
use vstd::string::{StringExecFns, StringSliceAdditionalSpecFns};
use crate::utils::{dec_chars, usize_to_string};
use self::languages::Languages;
use self::url::{percent_encoded, EncodedFragment};

verus! {

/// The longest message, in bytes, the provider accepts in one request.
pub const MAX_TEXT_LEN: usize = 100;

/// The Google translate backend: playback volume in percent, the language,
/// and the top-level domain the request goes to.
#[derive(Clone, Debug)]
pub struct GttsModel {
    pub volume: u32,
    pub language: Languages,
    pub tld: String,
}

/// Playback speed of the fetched utterance.
pub enum Speed {
    Normal,
    Slow,
}

/// The request URL for a message: the translate host under the configured
/// domain, with the encoded message, the language code (twice, as the
/// endpoint expects), and the byte length of the raw message.
pub open spec fn gtts_url(tld: Seq<char>, lang: Seq<char>, msg_bytes: Seq<u8>) -> Seq<char> {
    "https://translate.google."@ + tld + "/translate_tts?ie=UTF-8&q="@ + percent_encoded(msg_bytes)
        + "&tl="@ + lang + "&total=1&idx=0&textlen="@ + dec_chars(msg_bytes.len() as int) + "&tl="@
        + lang + "&client=tw-ob"@
}

impl GttsModel {
    pub fn new(volume: u32, language: Languages, tld: String) -> (r: Self)
        ensures
            r.volume == volume,
            r.language == language,
            r.tld == tld,
    {
        Self { language, volume, tld }
    }

    /// Prepares the request URL for a message.  A message longer than the
    /// ceiling is rejected with a descriptive message and no URL is
    /// prepared; empty text is rejected as such; any other message yields
    /// exactly the request URL.
    pub fn generate(&self, message: &str) -> (r: Result<String, String>)
        ensures
            message.spec_bytes().len() > MAX_TEXT_LEN ==> (r matches Err(m) && m@
                == "The text is too long. Max length is 100"@),
            message.spec_bytes().len() == 0 ==> (r matches Err(m) && m@ == "Empty text"@),
            0 < message.spec_bytes().len() <= MAX_TEXT_LEN ==> (r matches Ok(u) && u@ == gtts_url(
                self.tld@,
                self.language.spec_code(),
                message.spec_bytes(),
            )),
    {
        let len = message.as_bytes().len();
        if len > MAX_TEXT_LEN {
            return Err("The text is too long. Max length is 100".to_owned());
        }
        let fragment = match EncodedFragment::fragmenter(message) {
            Ok(f) => f,
            Err(e) => {
                return Err(e);
            },
        };
        let lang = self.language.as_code();
        let len_str = usize_to_string(len);
        let mut result = "https://translate.google.".to_owned();
        result.append(self.tld.as_str());
        result.append("/translate_tts?ie=UTF-8&q=");
        result.append(fragment.encoded.as_str());
        result.append("&tl=");
        result.append(lang.as_str());
        result.append("&total=1&idx=0&textlen=");
        result.append(len_str.as_str());
        result.append("&tl=");
        result.append(lang.as_str());
        result.append("&client=tw-ob");
        Ok(result)
    }
}

impl Default for GttsModel {
    /// Full volume, English, and the international domain.
    fn default() -> (r: Self)
        ensures
            r.volume == 100,
            r.language == Languages::English,
            r.tld@ == "com"@,
    {
        Self::new(100, Languages::English, "com".to_owned())
    }
}

} // verus!
