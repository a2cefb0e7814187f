//! The tab strip, the scope's trail, the tray icon and the wish to quit.

use vstd::prelude::*;

verus! {

/// How many points a trail keeps.
pub const TRAIL_LEN: usize = 48;

/// Edge of the tray icon in pixels.
pub const ICON_SIDE: u32 = 16;

/// A tab of the editor.
#[derive(Clone, Copy, Debug, PartialEq, Eq, Structural)]
pub enum Tab {
    Profiles,
    Mapping,
    Sticks,
    Mouse,
    Gyro,
    Macros,
    AutoSwitch,
    Engine,
}

impl Tab {
    /// The tabs in the order in which they are shown.
    pub const ALL: [Tab; 8] = [
        Tab::Profiles,
        Tab::Mapping,
        Tab::Sticks,
        Tab::Mouse,
        Tab::Gyro,
        Tab::Macros,
        Tab::AutoSwitch,
        Tab::Engine,
    ];

    /// What the tab is called.
    pub open spec fn text(self) -> &'static str {
        match self {
            Tab::Profiles => "Profiles",
            Tab::Mapping => "Mapping",
            Tab::Sticks => "Sticks",
            Tab::Mouse => "Mouse",
            Tab::Gyro => "Gyro",
            Tab::Macros => "Macros",
            Tab::AutoSwitch => "Auto-switch",
            Tab::Engine => "Engine",
        }
    }

    /// What the tab is called.
    pub fn label(self) -> (r: &'static str)
        ensures
            r@ == self.text()@,
    {
        match self {
            Tab::Profiles => "Profiles",
            Tab::Mapping => "Mapping",
            Tab::Sticks => "Sticks",
            Tab::Mouse => "Mouse",
            Tab::Gyro => "Gyro",
            Tab::Macros => "Macros",
            Tab::AutoSwitch => "Auto-switch",
            Tab::Engine => "Engine",
        }
    }
}

/// A trail after one more point: the oldest makes room where the trail is full.
pub open spec fn trailed<T>(trail: Seq<T>, point: T) -> Seq<T> {
    if trail.len() == TRAIL_LEN {
        trail.remove(0).push(point)
    } else {
        trail.push(point)
    }
}

/// Adds a point to a trail.
pub fn push_trail<T>(trail: &mut Vec<T>, point: T)
    ensures
        final(trail)@ == trailed(old(trail)@, point),
{
    if trail.len() == TRAIL_LEN {
        trail.remove(0);
    }
    trail.push(point);
}

/// A trail never outgrows its length, and ends with the newest point.
pub proof fn trail_stays_short<T>(trail: Seq<T>, point: T)
    requires
        trail.len() <= TRAIL_LEN,
    ensures
        trailed(trail, point).len() <= TRAIL_LEN,
        trailed(trail, point).last() == point,
{
}

/// Whether a pixel lies on the icon's edge.
pub open spec fn on_edge(x: int, y: int) -> bool {
    x == 0 || y == 0 || x == ICON_SIDE - 1 || y == ICON_SIDE - 1
}

/// One channel of a pixel of the icon: clear on the edge, amber inside.
pub open spec fn icon_byte(x: int, y: int, channel: int) -> u8 {
    if on_edge(x, y) {
        0
    } else if channel == 0 || channel == 3 {
        255
    } else if channel == 1 {
        176
    } else {
        64
    }
}

/// The tray icon, row by row, four bytes for each pixel.
pub fn solid_icon_rgba() -> (r: Vec<u8>)
    ensures
        r@.len() == ICON_SIDE * ICON_SIDE * 4,
        forall|x: int, y: int, channel: int|
            #![trigger icon_byte(x, y, channel)]
            0 <= x < ICON_SIDE && 0 <= y < ICON_SIDE && 0 <= channel < 4 ==> r@[(y * ICON_SIDE + x) * 4
                + channel] == icon_byte(x, y, channel),
{
    let mut r: Vec<u8> = Vec::new();
    let mut i: u32 = 0;
    while i < 256
        invariant
            i <= 256,
            r@.len() == i * 4,
            forall|k: int, channel: int|
                #![trigger r@[k * 4 + channel]]
                0 <= k < i && 0 <= channel < 4 ==> r@[k * 4 + channel] == icon_byte(
                    k % 16,
                    k / 16,
                    channel,
                ),
        decreases 256 - i,
    {
        let x: u32 = i % 16;
        let y: u32 = i / 16;
        let ghost before: Seq<u8> = r@;
        if x == 0 || y == 0 || x == ICON_SIDE - 1 || y == ICON_SIDE - 1 {
            r.push(0);
            r.push(0);
            r.push(0);
            r.push(0);
        } else {
            r.push(255);
            r.push(176);
            r.push(64);
            r.push(255);
        }
        assert forall|k: int, channel: int|
            #![trigger r@[k * 4 + channel]]
            0 <= k < i + 1 && 0 <= channel < 4 implies r@[k * 4 + channel] == icon_byte(
            k % 16,
            k / 16,
            channel,
        ) by {
            if k < i {
                assert(before[k * 4 + channel] == r@[k * 4 + channel]);
            }
        }
        i = i + 1;
    }
    assert forall|x: int, y: int, channel: int|
        #![trigger icon_byte(x, y, channel)]
        0 <= x < ICON_SIDE && 0 <= y < ICON_SIDE && 0 <= channel < 4 implies r@[(y * ICON_SIDE + x)
        * 4 + channel] == icon_byte(x, y, channel) by {
        let k: int = y * ICON_SIDE + x;
        assert(k % 16 == x && k / 16 == y);
        assert(r@[k * 4 + channel] == icon_byte(k % 16, k / 16, channel));
    }
    r
}

/// Whether somebody wants the program to end.
#[derive(Clone, Copy, Debug, PartialEq, Eq, Structural)]
pub struct QuitFlag {
    pub requested: bool,
}

impl Default for QuitFlag {
    fn default() -> (r: QuitFlag)
        ensures
            !r.requested,
    {
        QuitFlag { requested: false }
    }
}

/// Asks the program to end; asking again changes nothing.
pub fn request_quit(flag: &mut QuitFlag)
    ensures
        final(flag).requested,
{
    flag.requested = true;
}

/// Whether the program has been asked to end.
pub fn quit_requested(flag: &QuitFlag) -> (r: bool)
    ensures
        r == flag.requested,
{
    flag.requested
}

/// A trail keeps its newest 48 points in order: a full one drops its oldest, any other nothing.
pub proof fn trail_keeps_the_newest<T>(trail: Seq<T>, point: T, i: int)
    requires
        0 <= i < trail.len(),
    ensures
        trail.len() != 48 ==> trailed(trail, point).len() == trail.len() + 1 && trailed(
            trail,
            point,
        )[i] == trail[i],
        trail.len() == 48 ==> trailed(trail, point).len() == 48 && (i > 0 ==> trailed(
            trail,
            point,
        )[i - 1] == trail[i]),
        trailed(trail, point).last() == point,
{
}

/// The icon is 16 pixels wide and high, has a clear frame of one pixel and is amber inside; it looks
/// the same turned over either way.
pub proof fn icon_is_a_framed_square(x: int, y: int, channel: int)
    requires
        0 <= x < 16,
        0 <= y < 16,
        0 <= channel < 4,
    ensures
        ICON_SIDE == 16,
        icon_byte(x, y, channel) == icon_byte(15 - x, y, channel) == icon_byte(x, 15 - y, channel),
        x == 0 || y == 0 ==> icon_byte(x, y, channel) == 0,
        0 < x < 15 && 0 < y < 15 ==> {
            &&& icon_byte(x, y, 0) == 255 && icon_byte(x, y, 1) == 176
            &&& icon_byte(x, y, 2) == 64 && icon_byte(x, y, 3) == 255
        },
{
}

/// A tab is called by what it shows.
pub proof fn tabs_are_called_by_what_they_show()
    ensures
        Tab::Profiles.text()@ == "Profiles"@,
        Tab::Mapping.text()@ == "Mapping"@,
        Tab::Sticks.text()@ == "Sticks"@,
        Tab::Mouse.text()@ == "Mouse"@,
        Tab::Gyro.text()@ == "Gyro"@,
        Tab::Macros.text()@ == "Macros"@,
        Tab::AutoSwitch.text()@ == "Auto-switch"@,
        Tab::Engine.text()@ == "Engine"@,
{
}

} // verus!
