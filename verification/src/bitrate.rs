//! The request validator: which bitrates a caller may ask for.

use vstd::prelude::*;
use vstd::string::*;

verus! {

/// A bitrate preset. The tool receives the preset's text as its video
/// bitrate, so only these values ever reach its command line.
#[derive(Debug, Clone, Copy, PartialEq, Eq, Structural)]
pub enum Bitrate {
    /// 200 kbit/s, written `200K`.
    Low,
    /// 1 Mbit/s, written `1M`.
    High,
}

impl Bitrate {
    /// The text under which the preset is asked for and handed to the tool.
    pub open spec fn text(self) -> Seq<char> {
        match self {
            Bitrate::Low => "200K"@,
            Bitrate::High => "1M"@,
        }
    }

    /// The preset that a text names, if it names one. The match is exact:
    /// no trimming, no change of case.
    pub open spec fn from_text(text: Seq<char>) -> Option<Bitrate> {
        if text == "200K"@ {
            Some(Bitrate::Low)
        } else if text == "1M"@ {
            Some(Bitrate::High)
        } else {
            None
        }
    }

    /// Whether a text is on the allow-list.
    pub open spec fn allowed(text: Seq<char>) -> bool {
        Self::from_text(text) is Some
    }

    /// Reads the `bitrate` query parameter.
    pub fn parse(text: &str) -> (r: Option<Bitrate>)
        ensures
            r == Self::from_text(text@),
    {
        let given: String = text.to_owned();
        if given == "200K".to_owned() {
            Some(Bitrate::Low)
        } else if given == "1M".to_owned() {
            Some(Bitrate::High)
        } else {
            None
        }
    }

    /// The preset's text.
    pub fn as_str(self) -> (r: &'static str)
        ensures
            r@ == self.text(),
    {
        match self {
            Bitrate::Low => "200K",
            Bitrate::High => "1M",
        }
    }

    /// Each preset is named by its own text and by no other: reading a
    /// preset's text gives the preset back, and a text that is read as a
    /// preset is that preset's text.
    pub proof fn lemma_text_names_preset(text: Seq<char>, preset: Bitrate)
        ensures
            Self::from_text(preset.text()) == Some(preset),
            Self::from_text(text) == Some(preset) <==> text == preset.text(),
    {
        reveal_strlit("200K");
        reveal_strlit("1M");
        assert("200K"@.len() == 4);
        assert("1M"@.len() == 2);
    }
}

} // verus!
