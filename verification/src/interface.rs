//! Settings of the desktop's interface: the battery percentage in the top
//! bar, the pointer locator, and the size of the cursor.

use vstd::prelude::*;
use crate::store::{
    get_bool, get_unsigned, place, reset, set_bool, set_unsigned, BoolQuery, StoreRequest,
    StoreRequestView, UnsignedQuery,
};
use crate::text::{text_of_bool, text_of_unsigned};

verus! {

/// The request that shows or hides the battery percentage.
pub fn set_show_battery_percentage(show: bool) -> (request: StoreRequest)
    ensures
        request@ == StoreRequestView::Write(
            place("org.gnome.desktop.interface"@, "show-battery-percentage"@),
            text_of_bool(show),
        ),
{
    set_bool("org.gnome.desktop.interface", "show-battery-percentage", show)
}

/// The read of whether the battery percentage is shown.
pub fn get_show_battery_percentage() -> (query: BoolQuery)
    ensures
        query.at@ == place("org.gnome.desktop.interface"@, "show-battery-percentage"@),
{
    get_bool("org.gnome.desktop.interface", "show-battery-percentage")
}

/// The request that puts the default for the battery percentage back.
pub fn reset_show_battery_percentage() -> (request: StoreRequest)
    ensures
        request@ == StoreRequestView::Reset(place("org.gnome.desktop.interface"@, "show-battery-percentage"@)),
{
    reset("org.gnome.desktop.interface", "show-battery-percentage")
}

/// The request that turns the pointer locator on or off.
pub fn set_locate_pointer(enabled: bool) -> (request: StoreRequest)
    ensures
        request@ == StoreRequestView::Write(
            place("org.gnome.desktop.interface"@, "locate-pointer"@),
            text_of_bool(enabled),
        ),
{
    set_bool("org.gnome.desktop.interface", "locate-pointer", enabled)
}

/// The read of whether the pointer locator is on.
pub fn get_locate_pointer() -> (query: BoolQuery)
    ensures
        query.at@ == place("org.gnome.desktop.interface"@, "locate-pointer"@),
{
    get_bool("org.gnome.desktop.interface", "locate-pointer")
}

/// The request that puts the default for the pointer locator back.
pub fn reset_locate_pointer() -> (request: StoreRequest)
    ensures
        request@ == StoreRequestView::Reset(place("org.gnome.desktop.interface"@, "locate-pointer"@)),
{
    reset("org.gnome.desktop.interface", "locate-pointer")
}

/// The request that sets the size of the cursor.
pub fn set_cursor_size(size: u32) -> (request: StoreRequest)
    ensures
        request@ == StoreRequestView::Write(
            place("org.gnome.desktop.interface"@, "cursor-size"@),
            text_of_unsigned(size),
        ),
{
    set_unsigned("org.gnome.desktop.interface", "cursor-size", size)
}

/// The read of the size of the cursor.
pub fn get_cursor_size() -> (query: UnsignedQuery)
    ensures
        query.at@ == place("org.gnome.desktop.interface"@, "cursor-size"@),
{
    get_unsigned("org.gnome.desktop.interface", "cursor-size")
}

/// The request that puts the default size of the cursor back.
pub fn reset_cursor_size() -> (request: StoreRequest)
    ensures
        request@ == StoreRequestView::Reset(place("org.gnome.desktop.interface"@, "cursor-size"@)),
{
    reset("org.gnome.desktop.interface", "cursor-size")
}

} // verus!
