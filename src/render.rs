//! Settings and checks around turning HTML into a display image.

use vstd::prelude::*;

use crate::clock::unix_time_now;
use crate::decimal::{decimal_string, decimal_text};
use crate::error::Error;
use crate::{DISPLAY_HEIGHT, DISPLAY_WIDTH, MAX_IMAGE_SIZE};

verus! {

/// How HTML is rendered to an image.
#[derive(Clone, Debug)]
pub struct RenderConfig {
    /// Browser executable.
    pub chrome_path: String,
    /// Directory for intermediate files.
    pub temp_dir: String,
    /// Whether the image is reduced for e-ink.
    pub optimize: bool,
    /// Number of colours of a reduced image.
    pub color_depth: u32,
    pub width: u32,
    pub height: u32,
}

impl Default for RenderConfig {
    /// "google-chrome", "/tmp/trmnl", reduced to 16 colours, 800 by 480.
    fn default() -> (r: Self)
        ensures
            r.chrome_path@ == "google-chrome"@,
            r.temp_dir@ == "/tmp/trmnl"@,
            r.optimize,
            r.color_depth == 16,
            r.width == DISPLAY_WIDTH,
            r.height == DISPLAY_HEIGHT,
    {
        RenderConfig {
            chrome_path: String::from_str("google-chrome"),
            temp_dir: String::from_str("/tmp/trmnl"),
            optimize: true,
            color_depth: 16,
            width: DISPLAY_WIDTH,
            height: DISPLAY_HEIGHT,
        }
    }
}

impl RenderConfig {
    /// The same settings with another browser executable.
    pub fn with_chrome_path(self, path: &str) -> (r: Self)
        ensures
            r.chrome_path@ == path@,
            r.temp_dir == self.temp_dir,
            r.optimize == self.optimize,
            r.color_depth == self.color_depth,
            r.width == self.width,
            r.height == self.height,
    {
        RenderConfig { chrome_path: String::from_str(path), ..self }
    }

    /// The same settings with another directory for intermediate files.
    pub fn with_temp_dir(self, path: &str) -> (r: Self)
        ensures
            r.temp_dir@ == path@,
            r.chrome_path == self.chrome_path,
            r.optimize == self.optimize,
            r.color_depth == self.color_depth,
            r.width == self.width,
            r.height == self.height,
    {
        RenderConfig { temp_dir: String::from_str(path), ..self }
    }

    /// The same settings without reduction for e-ink.
    pub fn without_optimization(self) -> (r: Self)
        ensures
            r == (RenderConfig { optimize: false, ..self }),
    {
        RenderConfig { optimize: false, ..self }
    }

    /// The browser window, "W,H": 100 pixels taller than the image, so
    /// that no scrollbar reaches into it.
    pub fn window_size(&self) -> (r: String)
        ensures
            r@ == decimal_text(self.width as nat) + ","@ + decimal_text(self.height as nat + 100),
    {
        let w = decimal_string(self.width as u64);
        let h = decimal_string(self.height as u64 + 100);
        w.concat(",").concat(h.as_str())
    }

    /// The crop that cuts the image out of the screenshot, "WxH+0+0".
    pub fn crop_geometry(&self) -> (r: String)
        ensures
            r@ == decimal_text(self.width as nat) + "x"@ + decimal_text(self.height as nat) + "+0+0"@,
    {
        let w = decimal_string(self.width as u64);
        let h = decimal_string(self.height as u64);
        w.concat("x").concat(h.as_str()).concat("+0+0")
    }
}

/// Accepts an image no larger than the firmware takes; else reports its
/// size against the limit.
pub fn check_image_size(png: Vec<u8>) -> (r: Result<Vec<u8>, Error>)
    ensures
        png@.len() <= MAX_IMAGE_SIZE ==> r == Ok::<Vec<u8>, Error>(png),
        png@.len() > MAX_IMAGE_SIZE ==> (r matches Err(Error::ImageTooLarge { size, max }) && size
            == png@.len() && max == MAX_IMAGE_SIZE),
{
    if png.len() > MAX_IMAGE_SIZE {
        Err(Error::ImageTooLarge { size: png.len(), max: MAX_IMAGE_SIZE })
    } else {
        Ok(png)
    }
}

/// The image file name for a Unix time: its seconds, then ".png".
pub fn filename_for_timestamp(unix_secs: u64) -> (r: String)
    ensures
        r@ == decimal_text(unix_secs as nat) + ".png"@,
{
    decimal_string(unix_secs).concat(".png")
}

/// A file name that changes every second, so that the device sees a new
/// image; a clock set before 1970 counts as the epoch.
pub fn timestamped_filename() -> (r: String)
    ensures
        exists|secs: nat| r@ == decimal_text(secs) + ".png"@,
{
    let secs: u64 = match unix_time_now() {
        Some(s) => s,
        None => 0,
    };
    filename_for_timestamp(secs)
}

} // verus!
