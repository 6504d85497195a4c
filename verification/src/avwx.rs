//! The aviation weather service: where a station is asked for, and what the
//! service answers when it refuses.

use crate::percent::{percent_encode, percent_encoded};
use vstd::prelude::*;
use vstd::string::{StringExecFns, StringSliceAdditionalSpecFns};

verus! {

/// What the service answers in place of a station when it refuses a request.
#[derive(Debug)]
pub struct AvwxError {
    pub error: String,
    pub param: String,
    pub help: String,
    pub timestamp: String,
}

/// What one page of the menu of a station shows: the station itself on the
/// first page, and one of its runways on each page after it.
#[derive(Clone, Copy, Debug, PartialEq, Eq, Structural)]
pub enum StationPage {
    Station,
    /// The runway at this index of the station's runways.
    Runway(usize),
}

/// The number of pages of the menu of a station with `runways` runways, if
/// that number can be counted.
pub fn station_page_count(runways: usize) -> (count: Option<usize>)
    ensures
        match count {
            Some(pages) => pages == runways + 1,
            None => runways + 1 > usize::MAX,
        },
{
    runways.checked_add(1)
}

/// What the page at `position` shows.
pub fn station_page(position: usize) -> (page: StationPage)
    ensures
        page == if position == 0 {
            StationPage::Station
        } else {
            StationPage::Runway((position - 1) as usize)
        },
{
    if position == 0 {
        StationPage::Station
    } else {
        StationPage::Runway(position - 1)
    }
}

/// The address under which the station with the identifier `ident` is asked
/// for.
pub open spec fn station_url_text(ident: Seq<u8>) -> Seq<char> {
    "https://avwx.rest/api/station/"@ + percent_encoded(ident) + "?format=json"@
}

/// The address under which the station `ident` is asked for: the identifier
/// is percent-encoded, so that no character of it is read as part of the
/// address.
pub fn station_url(ident: &str) -> (url: String)
    ensures
        url@ == station_url_text(ident.spec_bytes()),
{
    let mut url = String::from_str("https://avwx.rest/api/station/");
    let encoded = percent_encode(ident);
    url.append(encoded.as_str());
    url.append("?format=json");
    url
}

} // verus!
