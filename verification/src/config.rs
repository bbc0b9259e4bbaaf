//! Configuration data consumed once at startup: theme colors, the library
//! root directory, and control settings. Loading the values from disk is the
//! surrounding program's concern; the types and their defaults live here.

use vstd::prelude::*;
use vstd::string::StringExecFns;

verus! {

/// Theme colors, each as a hex color string.
pub struct Colors {
    pub album: String,
    pub artist: String,
    pub border: String,
    pub fs_directory: String,
    pub fs_file: String,
    pub highlight_color: String,
    pub options: String,
    pub paused: String,
    pub playback_speed: String,
    pub seekbar_filled: String,
    pub seekbar_unfilled: String,
    pub status: String,
    pub tab_selected: String,
    pub tab_unselected: String,
    pub timestamp: String,
    pub title: String,
    pub track_num: String,
    pub volume: String,
    pub year: String,
}

impl Default for Colors {
    fn default() -> (c: Colors)
        ensures
            c.album@ == "#00FF00"@,
            c.artist@ == "#FF0000"@,
            c.border@ == "#FFFFFF"@,
            c.fs_directory@ == "#598EFF"@,
            c.fs_file@ == "#FFFFFF"@,
            c.highlight_color@ == "#FF0000"@,
            c.options@ == "#FF0000"@,
            c.paused@ == "#00FF00"@,
            c.playback_speed@ == "#598EFF"@,
            c.seekbar_filled@ == "#FFFFFF"@,
            c.seekbar_unfilled@ == "#000000"@,
            c.status@ == "#598EFF"@,
            c.tab_selected@ == "#FF0000"@,
            c.tab_unselected@ == "#FFFFFF"@,
            c.timestamp@ == "#598EFF"@,
            c.title@ == "#FFFF00"@,
            c.track_num@ == "#FF00FF"@,
            c.volume@ == "#598EFF"@,
            c.year@ == "#598EFF"@,
    {
        Colors {
            album: String::from_str("#00FF00"),
            artist: String::from_str("#FF0000"),
            border: String::from_str("#FFFFFF"),
            fs_directory: String::from_str("#598EFF"),
            fs_file: String::from_str("#FFFFFF"),
            highlight_color: String::from_str("#FF0000"),
            options: String::from_str("#FF0000"),
            paused: String::from_str("#00FF00"),
            playback_speed: String::from_str("#598EFF"),
            seekbar_filled: String::from_str("#FFFFFF"),
            seekbar_unfilled: String::from_str("#000000"),
            status: String::from_str("#598EFF"),
            tab_selected: String::from_str("#FF0000"),
            tab_unselected: String::from_str("#FFFFFF"),
            timestamp: String::from_str("#598EFF"),
            title: String::from_str("#FFFF00"),
            track_num: String::from_str("#FF00FF"),
            volume: String::from_str("#598EFF"),
            year: String::from_str("#598EFF"),
        }
    }
}

/// Directory settings: the root of the user's music library. The default is
/// empty; the startup layer fills in a real path before use.
pub struct Directories {
    pub music_directory: String,
}

impl Default for Directories {
    fn default() -> (d: Directories)
        ensures
            d.music_directory@ == Seq::<char>::empty(),
    {
        Directories { music_directory: String::new() }
    }
}

/// Control settings: how far one volume keypress moves the volume.
pub struct Controls {
    pub vol_delta: i16,
}

impl Default for Controls {
    fn default() -> (c: Controls)
        ensures
            c.vol_delta == 2i16,
    {
        Controls { vol_delta: 2 }
    }
}

/// All configuration parameters together.
pub struct ConfigData {
    pub colors: Colors,
    pub directories: Directories,
    pub controls: Controls,
}

impl Default for ConfigData {
    fn default() -> (c: ConfigData)
        ensures
            c.colors.border@ == "#FFFFFF"@,
            c.directories.music_directory@ == Seq::<char>::empty(),
            c.controls.vol_delta == 2i16,
    {
        ConfigData {
            colors: Colors::default(),
            directories: Directories::default(),
            controls: Controls::default(),
        }
    }
}

} // verus!
