//! Screen areas of the terminal interface and where its popups go.

use vstd::prelude::*;

verus! {

/// A rectangle of terminal cells.
#[derive(Debug, Clone, Copy, PartialEq, Eq, Structural)]
pub struct Area {
    pub x: u16,
    pub y: u16,
    pub width: u16,
    pub height: u16,
}

impl Area {
    /// The rectangle lies on a screen of at most `u16::MAX` cells a side.
    pub open spec fn fits(self) -> bool {
        self.x + self.width <= u16::MAX && self.y + self.height <= u16::MAX
    }

    /// `other` lies inside `self`.
    pub open spec fn holds(self, other: Area) -> bool {
        &&& self.x <= other.x
        &&& other.x + other.width <= self.x + self.width
        &&& self.y <= other.y
        &&& other.y + other.height <= self.y + self.height
    }
}

pub open spec fn min_u16(a: u16, b: u16) -> u16 {
    if a < b {
        a
    } else {
        b
    }
}

pub open spec fn sat_sub(a: u16, b: u16) -> u16 {
    if a >= b {
        (a - b) as u16
    } else {
        0
    }
}

/// A `w` by `h` rectangle centred in `area`, both sides held to the area's.
pub open spec fn centered_in(area: Area, w: u16, h: u16) -> Area {
    let w2 = min_u16(w, area.width);
    let h2 = min_u16(h, area.height);
    Area {
        x: (area.x + (area.width - w2) / 2) as u16,
        y: (area.y + (area.height - h2) / 2) as u16,
        width: w2,
        height: h2,
    }
}

pub fn centered(area: Area, w: u16, h: u16) -> (r: Area)
    requires
        area.fits(),
    ensures
        r == centered_in(area, w, h),
        area.holds(r),
{
    let w2 = if w < area.width {
        w
    } else {
        area.width
    };
    let h2 = if h < area.height {
        h
    } else {
        area.height
    };
    Area {
        x: area.x + (area.width - w2) / 2,
        y: area.y + (area.height - h2) / 2,
        width: w2,
        height: h2,
    }
}

/// The track information popup: at most 100 columns, and 22 rows or four
/// fewer than the area, centred.
pub fn info_popup(area: Area) -> (r: Area)
    requires
        area.fits(),
    ensures
        r == centered_in(area, 100, min_u16(22, sat_sub(area.height, 4))),
        area.holds(r),
{
    let h = if area.height >= 4 {
        area.height - 4
    } else {
        0
    };
    let h = if h < 22 {
        h
    } else {
        22
    };
    let r = centered(area, 100, h);
    r
}

/// The help popup: at most 90 columns, centred across, two rows from the
/// top and four rows shorter than the area.
pub open spec fn help_popup_at(area: Area) -> Area {
    let w = min_u16(90, area.width);
    Area {
        x: (area.x + (area.width - w) / 2) as u16,
        y: (area.y + 2) as u16,
        width: w,
        height: sat_sub(area.height, 4),
    }
}

pub fn help_popup(area: Area) -> (r: Area)
    requires
        area.fits(),
        area.y + 2 <= u16::MAX,
    ensures
        r == help_popup_at(area),
        area.height >= 4 ==> area.holds(r),
{
    let w = if area.width < 90 {
        area.width
    } else {
        90
    };
    Area {
        x: area.x + (area.width - w) / 2,
        y: area.y + 2,
        width: w,
        height: if area.height >= 4 {
            area.height - 4
        } else {
            0
        },
    }
}

/// A band of `content_height` rows centred vertically in `area`.
pub fn center_vertically(area: Area, content_height: u16) -> (r: Area)
    requires
        area.fits(),
    ensures
        r.x == area.x,
        r.width == area.width,
        r.height == min_u16(content_height, area.height),
        r.y == area.y + (area.height - r.height) / 2,
        area.holds(r),
{
    let h = if content_height < area.height {
        content_height
    } else {
        area.height
    };
    Area { x: area.x, y: area.y + (area.height - h) / 2, width: area.width, height: h }
}


/// The playlist-name popup: at most 50 columns, five rows, centred.
pub open spec fn name_popup_at(area: Area) -> Area {
    let w = min_u16(50, area.width);
    Area {
        x: (area.x + (area.width - w) / 2) as u16,
        y: (area.y + sat_sub(area.height, 5) / 2) as u16,
        width: w,
        height: 5,
    }
}

pub fn name_popup(area: Area) -> (r: Area)
    requires
        area.fits(),
    ensures
        r == name_popup_at(area),
        area.height >= 5 ==> area.holds(r),
{
    let w = if area.width < 50 {
        area.width
    } else {
        50
    };
    let gap = if area.height >= 5 {
        area.height - 5
    } else {
        0
    };
    Area { x: area.x + (area.width - w) / 2, y: area.y + gap / 2, width: w, height: 5 }
}

/// The setup popup: at most 80 by 11, centred.
pub fn setup_popup(area: Area) -> (r: Area)
    requires
        area.fits(),
    ensures
        r == centered_in(area, 80, 11),
        area.holds(r),
{
    centered(area, 80, 11)
}

/// The playlist picker: at most 50 columns, a row per playlist and four
/// more, centred.
pub fn picker_popup(area: Area, playlists: usize) -> (r: Area)
    requires
        area.fits(),
        playlists + 4 <= u16::MAX,
    ensures
        r == centered_in(area, 50, (playlists + 4) as u16),
        area.holds(r),
{
    centered(area, 50, playlists as u16 + 4)
}

} // verus!
