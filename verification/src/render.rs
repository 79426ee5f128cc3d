//! The screen that a session state is shown as.

use crate::degrees::{decimal_text, Degrees};
use crate::ip_fetcher::{IpDetails, IpDetailsView};
use crate::screen::{
    texts, Color, DetailPane, DetailPaneView, Direction, Line, LineView, MapPane, MapPaneView,
    MapResolution, Screen, ScreenView, Split,
};
use crate::session::{SessionState, SessionStateView};
use vstd::prelude::*;

verus! {

/// How many fields of a result the detail pane lists.
pub const FIELD_COUNT: usize = 12;

/// The northern bound of the map, in millionths of a degree; the southern
/// bound is its negative.
pub const MAX_LATITUDE_MICRO: i64 = 90_000_000;

/// The eastern bound of the map, in millionths of a degree; the western
/// bound is its negative.
pub const MAX_LONGITUDE_MICRO: i64 = 180_000_000;

/// The division of the display: the map pane on the left with 70 percent of
/// the width, the detail pane on the right with 30, inside a margin of one cell.
pub open spec fn split_of() -> Split {
    Split { direction: Direction::Horizontal, margin: 1, first_percent: 70, second_percent: 30 }
}

/// The label of each listed field, in the order of listing.
pub open spec fn field_labels() -> Seq<Seq<char>> {
    seq![
        "  IP Address: "@,
        "  Lattitude: "@,
        "  Longittude: "@,
        "  Country: "@,
        "  Country Code: "@,
        "  Region: "@,
        "  Region Name: "@,
        "  City: "@,
        "  Zip: "@,
        "  Time zone: "@,
        "  Organisation: "@,
        "  ISP: "@,
    ]
}

/// The text of each listed field of a result, in the order of listing:
/// address, latitude, longitude, country, country code, region, region name,
/// city, zip, time zone, organisation, provider.
pub open spec fn field_values(details: IpDetailsView) -> Seq<Seq<char>> {
    seq![
        details.query,
        decimal_text(details.lat),
        decimal_text(details.lon),
        details.country,
        details.country_code,
        details.region,
        details.region_name,
        details.city,
        details.zip,
        details.timezone,
        details.org,
        details.isp,
    ]
}

/// The lines that list a result: for each field in turn an empty line, then
/// the field's label followed by its text.
pub open spec fn success_lines(details: IpDetailsView) -> Seq<Seq<char>> {
    Seq::new(
        2 * FIELD_COUNT as nat,
        |i: int|
            if i % 2 == 0 {
                Seq::empty()
            } else {
                field_labels()[i / 2] + field_values(details)[i / 2]
            },
    )
}

/// The lines of the detail pane: a notice while the lookup is pending and
/// after it failed, the listed fields after it succeeded.
pub open spec fn detail_lines_of(state: SessionStateView) -> Seq<Seq<char>> {
    match state {
        SessionStateView::Pending => seq![Seq::empty(), "  Fetching details"@],
        SessionStateView::Failure => seq![Seq::empty(), "  Error while fetching details"@],
        SessionStateView::Success(details) => success_lines(details),
    }
}

/// The line along the parallel of latitude `lat`, from the western bound of
/// the map to the eastern.
pub open spec fn parallel(lat: int) -> LineView {
    LineView {
        x1: -(MAX_LONGITUDE_MICRO as int),
        y1: lat,
        x2: MAX_LONGITUDE_MICRO as int,
        y2: lat,
        color: Color::Green,
    }
}

/// The line along the meridian of longitude `lon`, from the northern bound of
/// the map to the southern.
pub open spec fn meridian(lon: int) -> LineView {
    LineView {
        x1: lon,
        y1: MAX_LATITUDE_MICRO as int,
        x2: lon,
        y2: -(MAX_LATITUDE_MICRO as int),
        color: Color::Green,
    }
}

/// The lines laid over the map: after a lookup that succeeded, the parallel
/// and the meridian of the position found; none otherwise.
pub open spec fn overlay_of(state: SessionStateView) -> Seq<LineView> {
    match state {
        SessionStateView::Success(details) => seq![parallel(details.lat), meridian(details.lon)],
        _ => Seq::empty(),
    }
}

/// The map pane of a state.
pub open spec fn map_of(state: SessionStateView) -> MapPaneView {
    MapPaneView {
        title: "Ip Location"@,
        bordered: true,
        west: -(MAX_LONGITUDE_MICRO as int),
        east: MAX_LONGITUDE_MICRO as int,
        south: -(MAX_LATITUDE_MICRO as int),
        north: MAX_LATITUDE_MICRO as int,
        outline: Color::Red,
        resolution: MapResolution::High,
        overlay: overlay_of(state),
    }
}

/// The detail pane of a state.
pub open spec fn details_of(state: SessionStateView) -> DetailPaneView {
    DetailPaneView { title: "Details"@, bordered: true, lines: detail_lines_of(state) }
}

/// The screen of a state.
pub open spec fn screen_of(state: SessionStateView) -> ScreenView {
    ScreenView { split: split_of(), map: map_of(state), details: details_of(state) }
}

/// The label of the field listed at `index`.
fn field_label(index: usize) -> (label: &'static str)
    requires
        index < FIELD_COUNT,
    ensures
        label@ == field_labels()[index as int],
{
    if index == 0 {
        "  IP Address: "
    } else if index == 1 {
        "  Lattitude: "
    } else if index == 2 {
        "  Longittude: "
    } else if index == 3 {
        "  Country: "
    } else if index == 4 {
        "  Country Code: "
    } else if index == 5 {
        "  Region: "
    } else if index == 6 {
        "  Region Name: "
    } else if index == 7 {
        "  City: "
    } else if index == 8 {
        "  Zip: "
    } else if index == 9 {
        "  Time zone: "
    } else if index == 10 {
        "  Organisation: "
    } else {
        "  ISP: "
    }
}

/// The text of the field of `details` listed at `index`.
fn field_value(details: &IpDetails, index: usize) -> (value: String)
    requires
        index < FIELD_COUNT,
    ensures
        value@ == field_values(details@)[index as int],
{
    if index == 0 {
        details.query.clone()
    } else if index == 1 {
        details.lat.to_text()
    } else if index == 2 {
        details.lon.to_text()
    } else if index == 3 {
        details.country.clone()
    } else if index == 4 {
        details.country_code.clone()
    } else if index == 5 {
        details.region.clone()
    } else if index == 6 {
        details.region_name.clone()
    } else if index == 7 {
        details.city.clone()
    } else if index == 8 {
        details.zip.clone()
    } else if index == 9 {
        details.timezone.clone()
    } else if index == 10 {
        details.org.clone()
    } else {
        details.isp.clone()
    }
}

/// The lines that list a result.
fn list_fields(details: &IpDetails) -> (lines: Vec<String>)
    ensures
        texts(lines@) == success_lines(details@),
{
    let mut lines: Vec<String> = Vec::new();
    let mut index: usize = 0;
    while index < FIELD_COUNT
        invariant
            index <= FIELD_COUNT,
            lines@.len() == 2 * index,
            forall|k: int| 0 <= k < 2 * index ==> (#[trigger] lines@[k])@ == success_lines(details@)[k],
        decreases FIELD_COUNT - index,
    {
        let mut line = String::from_str(field_label(index));
        let value = field_value(details, index);
        line.append(value.as_str());
        lines.push(String::new());
        lines.push(line);
        index += 1;
    }
    assert(texts(lines@) =~= success_lines(details@));
    lines
}

/// The two lines of a notice: an empty line, then the notice.
fn notice(text: &str) -> (lines: Vec<String>)
    ensures
        texts(lines@) == seq![Seq::empty(), text@],
{
    let mut lines: Vec<String> = Vec::new();
    lines.push(String::new());
    lines.push(String::from_str(text));
    assert(texts(lines@) =~= seq![Seq::empty(), text@]);
    lines
}

/// The lines of the detail pane of a state.
pub fn detail_lines(state: &SessionState) -> (lines: Vec<String>)
    ensures
        texts(lines@) == detail_lines_of(state@),
{
    match state {
        SessionState::Pending => notice("  Fetching details"),
        SessionState::Failure => notice("  Error while fetching details"),
        SessionState::Success(details) => list_fields(details),
    }
}

/// The lines laid over the map of a state.
pub fn overlay(state: &SessionState) -> (lines: Vec<Line>)
    ensures
        Seq::new(lines@.len(), |i: int| lines@[i]@) == overlay_of(state@),
{
    let mut lines: Vec<Line> = Vec::new();
    match state {
        SessionState::Success(details) => {
            lines.push(
                Line {
                    x1: Degrees { micro: -MAX_LONGITUDE_MICRO },
                    y1: details.lat,
                    x2: Degrees { micro: MAX_LONGITUDE_MICRO },
                    y2: details.lat,
                    color: Color::Green,
                },
            );
            lines.push(
                Line {
                    x1: details.lon,
                    y1: Degrees { micro: MAX_LATITUDE_MICRO },
                    x2: details.lon,
                    y2: Degrees { micro: -MAX_LATITUDE_MICRO },
                    color: Color::Green,
                },
            );
        },
        _ => {},
    }
    assert(Seq::new(lines@.len(), |i: int| lines@[i]@) =~= overlay_of(state@));
    lines
}

/// One complete redraw of the display for a state: on the left the bordered
/// map of the world, crossed at the position found once the lookup has
/// succeeded, and on the right the bordered detail pane.
pub fn render(state: &SessionState) -> (screen: Screen)
    ensures
        screen@ == screen_of(state@),
{
    let map = MapPane {
        title: String::from_str("Ip Location"),
        bordered: true,
        west: Degrees { micro: -MAX_LONGITUDE_MICRO },
        east: Degrees { micro: MAX_LONGITUDE_MICRO },
        south: Degrees { micro: -MAX_LATITUDE_MICRO },
        north: Degrees { micro: MAX_LATITUDE_MICRO },
        outline: Color::Red,
        resolution: MapResolution::High,
        overlay: overlay(state),
    };
    let details = DetailPane {
        title: String::from_str("Details"),
        bordered: true,
        lines: detail_lines(state),
    };
    Screen {
        split: Split {
            direction: Direction::Horizontal,
            margin: 1,
            first_percent: 70,
            second_percent: 30,
        },
        map,
        details,
    }
}

/// After a lookup that succeeded the detail pane lists the twelve fields of
/// the result and nothing else: address, latitude, longitude, country,
/// country code, region, region name, city, zip, time zone, organisation and
/// provider, in this order, each on a line of its own behind its label and
/// each below an empty line.
pub proof fn lemma_success_lists_every_field(details: IpDetailsView)
    ensures
        ({
            let lines = screen_of(SessionStateView::Success(details)).details.lines;
            &&& lines.len() == 2 * FIELD_COUNT
            &&& forall|field: int| 0 <= field < FIELD_COUNT ==> (#[trigger] lines[2 * field]).len() == 0
            &&& lines[1] == "  IP Address: "@ + details.query
            &&& lines[3] == "  Lattitude: "@ + decimal_text(details.lat)
            &&& lines[5] == "  Longittude: "@ + decimal_text(details.lon)
            &&& lines[7] == "  Country: "@ + details.country
            &&& lines[9] == "  Country Code: "@ + details.country_code
            &&& lines[11] == "  Region: "@ + details.region
            &&& lines[13] == "  Region Name: "@ + details.region_name
            &&& lines[15] == "  City: "@ + details.city
            &&& lines[17] == "  Zip: "@ + details.zip
            &&& lines[19] == "  Time zone: "@ + details.timezone
            &&& lines[21] == "  Organisation: "@ + details.org
            &&& lines[23] == "  ISP: "@ + details.isp
        }),
{
}

/// While the lookup is pending the detail pane shows the notice that details
/// are being fetched, the map shows the outline of the world alone, and
/// neither depends on any result: the state holds none.
pub proof fn lemma_pending_shows_notice()
    ensures
        SessionStateView::Pending.details() is None,
        screen_of(SessionStateView::Pending).details.lines == seq![
            Seq::<char>::empty(),
            "  Fetching details"@,
        ],
        screen_of(SessionStateView::Pending).map.overlay.len() == 0,
{
}

/// After a lookup that failed the detail pane shows the error notice and
/// nothing is laid over the map: the outline of the world is all it shows.
pub proof fn lemma_failure_has_no_overlay()
    ensures
        screen_of(SessionStateView::Failure).details.lines == seq![
            Seq::<char>::empty(),
            "  Error while fetching details"@,
        ],
        screen_of(SessionStateView::Failure).map.overlay.len() == 0,
        screen_of(SessionStateView::Failure).map.outline == Color::Red,
{
}

/// After a lookup that succeeded exactly two lines are laid over the map: one
/// at the latitude found, from the western bound of the map to the eastern,
/// and one at the longitude found, from the northern bound to the southern.
pub proof fn lemma_success_overlay_is_crosshair(details: IpDetailsView)
    ensures
        ({
            let map = screen_of(SessionStateView::Success(details)).map;
            &&& map.overlay.len() == 2
            &&& map.overlay[0].y1 == details.lat
            &&& map.overlay[0].y2 == details.lat
            &&& map.overlay[0].x1 == map.west == -180_000_000
            &&& map.overlay[0].x2 == map.east == 180_000_000
            &&& map.overlay[1].x1 == details.lon
            &&& map.overlay[1].x2 == details.lon
            &&& map.overlay[1].y1 == map.north == 90_000_000
            &&& map.overlay[1].y2 == map.south == -90_000_000
        }),
{
}

/// The screen depends on nothing but the state: two redraws of states that
/// hold the same show the same.
pub proof fn lemma_render_is_repeatable(
    first_state: SessionState,
    second_state: SessionState,
    first: Screen,
    second: Screen,
)
    requires
        first_state@ == second_state@,
        first@ == screen_of(first_state@),
        second@ == screen_of(second_state@),
    ensures
        first@ == second@,
{
}

} // verus!
