//! The persisted-configuration codec: a one-line text form holding the
//! dark-mode flag and the API key, with a proved round trip, and the
//! loader that falls back to the default configuration on a missing or
//! malformed stored value.

use vstd::prelude::*;

use crate::headlines::{ConfigView, HeadlinesConfig};

verus! {

/// A stored configuration that cannot be read back.
#[derive(Debug)]
pub enum ConfigLoadError {
    Malformed,
}

/// The encoded form of a configuration: a one-character theme tag
/// (`'1'` dark, `'0'` light) followed by the API key.
pub open spec fn encode_spec(c: ConfigView) -> Seq<char> {
    (if c.dark_mode {
        "1"@
    } else {
        "0"@
    }) + c.api_key
}

/// What a stored text decodes to: the configuration it encodes, or
/// nothing when it is empty or its theme tag is unknown.
pub open spec fn decode_spec(s: Seq<char>) -> Option<ConfigView> {
    if s.len() >= 1 && (s[0] == '1' || s[0] == '0') {
        Some(ConfigView { dark_mode: s[0] == '1', api_key: s.drop_first() })
    } else {
        None
    }
}

/// Renders a configuration in its stored text form.
pub fn encode_config(c: &HeadlinesConfig) -> (s: String)
    ensures
        s@ == encode_spec(c@),
{
    let mut s = if c.dark_mode {
        String::from_str("1")
    } else {
        String::from_str("0")
    };
    s.append(c.api_key.as_str());
    s
}

/// Reads a configuration back from its stored text form; exactly the
/// texts that `decode_spec` accepts are accepted.
pub fn decode_config(s: &str) -> (r: Result<HeadlinesConfig, ConfigLoadError>)
    ensures
        match decode_spec(s@) {
            Some(c) => r matches Ok(got) && got@ == c,
            None => r matches Err(e) && e is Malformed,
        },
{
    let n = s.unicode_len();
    if n == 0 {
        return Err(ConfigLoadError::Malformed);
    }
    let tag = s.get_char(0);
    proof {
        reveal_strlit("1");
        reveal_strlit("0");
    }
    let dark_mode = if tag == '1' {
        true
    } else if tag == '0' {
        false
    } else {
        return Err(ConfigLoadError::Malformed);
    };
    let api_key = s.substring_char(1, n).to_owned();
    Ok(HeadlinesConfig { dark_mode, api_key })
}

/// Loads the configuration at startup: a stored text that decodes is
/// taken as it is; a missing or malformed one falls back to the default
/// configuration.
pub fn load_config(stored: Option<&String>) -> (c: HeadlinesConfig)
    ensures
        match stored {
            Some(s) => match decode_spec(s@) {
                Some(v) => c@ == v,
                None => c@ == (ConfigView { dark_mode: false, api_key: Seq::<char>::empty() }),
            },
            None => c@ == (ConfigView { dark_mode: false, api_key: Seq::<char>::empty() }),
        },
{
    match stored {
        Some(s) => match decode_config(s.as_str()) {
            Ok(c) => c,
            Err(_) => HeadlinesConfig::default(),
        },
        None => HeadlinesConfig::default(),
    }
}

/// Law: a configuration saved in its stored text form and loaded back
/// yields identical dark-mode and API-key values.
pub proof fn lemma_config_round_trip(c: ConfigView)
    ensures
        decode_spec(encode_spec(c)) == Some(c),
{
    reveal_strlit("1");
    reveal_strlit("0");
    assert(encode_spec(c).drop_first() =~= c.api_key);
    assert(decode_spec(encode_spec(c)) == Some(c));
}

} // verus!
