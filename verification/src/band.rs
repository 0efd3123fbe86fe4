use vstd::prelude::*;

verus! {

/// A Wi-Fi frequency band.
#[derive(Clone, Copy, Debug, PartialEq, Eq, Structural)]
pub enum Band {
    Ghz2_4,
    Ghz5,
    Ghz6,
}

/// The band a frequency (in MHz) belongs to, if any.
pub open spec fn band_of(freq: u32) -> Option<Band> {
    if 2400 <= freq <= 2500 {
        Some(Band::Ghz2_4)
    } else if 5150 <= freq <= 5925 {
        Some(Band::Ghz5)
    } else if 5926 <= freq <= 7125 {
        Some(Band::Ghz6)
    } else {
        None
    }
}

impl Band {
    /// The text shown for the band.
    pub open spec fn label_view(self) -> Seq<char> {
        match self {
            Band::Ghz2_4 => "2.4GHz"@,
            Band::Ghz5 => "5GHz"@,
            Band::Ghz6 => "6GHz"@,
        }
    }

    /// The text shown for the band.
    pub fn label(&self) -> (s: &'static str)
        ensures
            s@ == self.label_view(),
    {
        match self {
            Band::Ghz2_4 => "2.4GHz",
            Band::Ghz5 => "5GHz",
            Band::Ghz6 => "6GHz",
        }
    }
}

/// Classifies a frequency (in MHz) into its Wi-Fi band.
pub fn frequency_band(freq: u32) -> (b: Option<Band>)
    ensures
        b == band_of(freq),
        b == Some(Band::Ghz2_4) <==> 2400 <= freq <= 2500,
        b == Some(Band::Ghz5) <==> 5150 <= freq <= 5925,
        b == Some(Band::Ghz6) <==> 5926 <= freq <= 7125,
{
    if 2400 <= freq && freq <= 2500 {
        Some(Band::Ghz2_4)
    } else if 5150 <= freq && freq <= 5925 {
        Some(Band::Ghz5)
    } else if 5926 <= freq && freq <= 7125 {
        Some(Band::Ghz6)
    } else {
        None
    }
}

/// The label of the band a frequency (in MHz) belongs to: "2.4GHz" for
/// 2400..=2500, "5GHz" for 5150..=5925, "6GHz" for 5926..=7125, and
/// nothing for any other frequency.
pub fn freq_to_band(freq: u32) -> (r: Option<&'static str>)
    ensures
        r is Some <==> band_of(freq) is Some,
        r is Some ==> r->0@ == band_of(freq)->0.label_view(),
        2400 <= freq <= 2500 ==> (r matches Some(s) && s@ == "2.4GHz"@),
        5150 <= freq <= 5925 ==> (r matches Some(s) && s@ == "5GHz"@),
        5926 <= freq <= 7125 ==> (r matches Some(s) && s@ == "6GHz"@),
        !(2400 <= freq <= 2500 || 5150 <= freq <= 7125) ==> r is None,
{
    match frequency_band(freq) {
        Some(b) => Some(b.label()),
        None => None,
    }
}

/// Each band is a whole range of frequencies: 2400..=2500 MHz is the
/// 2.4 GHz band, 5150..=5925 MHz the 5 GHz band, 5926..=7125 MHz the 6 GHz
/// band, and no other frequency has a band.
pub proof fn bands_are_whole_ranges(freq: u32)
    ensures
        band_of(freq) == Some(Band::Ghz2_4) <==> 2400 <= freq <= 2500,
        band_of(freq) == Some(Band::Ghz5) <==> 5150 <= freq <= 5925,
        band_of(freq) == Some(Band::Ghz6) <==> 5926 <= freq <= 7125,
        band_of(freq) is None <==> !(2400 <= freq <= 2500 || 5150 <= freq <= 7125),
        Band::Ghz2_4.label_view() == "2.4GHz"@,
        Band::Ghz5.label_view() == "5GHz"@,
        Band::Ghz6.label_view() == "6GHz"@,
{
}

} // verus!
