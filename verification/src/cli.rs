use vstd::prelude::*;

verus! {

/// The resolution of the display grid used when none is given.
pub const RES_DEFAULT: u32 = 51;

/// The x resolution of the display grid used when none is given.
pub const XRES_DEFAULT: u32 = 51;

/// The y resolution of the display grid used when none is given.
pub const YRES_DEFAULT: u32 = 51;

/// How the raymarched scene is drawn; selects the fragment shader entry.
#[derive(Clone, Copy, Debug, PartialEq, Eq, PartialOrd, Ord, Structural)]
pub enum DisplayMode {
    Wire,
    Fill,
    Convert,
    Sdf,
}

/// Which colour channel of the rendered image is shown.
#[derive(Clone, Copy, Debug, PartialEq, Eq, PartialOrd, Ord, Structural)]
pub enum Channel {
    All,
    Red,
    Green,
    Blue,
    Grey,
    Rgb,
}

/// How polygons are rasterised by the render pipeline.
#[derive(Clone, Copy, Debug, PartialEq, Eq, Structural)]
pub enum PolygonMode {
    Fill,
    Line,
    Point,
}

/// Which colour components a render target accepts writes to.
#[derive(Clone, Copy, Debug, PartialEq, Eq, Structural)]
pub struct ColorWrites {
    pub red: bool,
    pub green: bool,
    pub blue: bool,
    pub alpha: bool,
}

/// The command line of the viewer.
///
/// `offset` and `scale` hold the IEEE-754 bit patterns of the `f32` values
/// given on the command line; the library only carries them along.
#[derive(Clone, Copy, Debug, PartialEq, Eq, Structural)]
pub struct Cli {
    pub display: DisplayMode,
    pub channel: Channel,
    pub resolution: u32,
    pub xres: u32,
    pub yres: u32,
    pub offset: u32,
    pub scale: u32,
}

/// What the program needs of the command line, resolved once.
///
/// `zoffset` and `zscale` hold the IEEE-754 bit patterns of `f32` values.
#[derive(Clone, Copy, Debug, PartialEq, Eq, Structural)]
pub struct Args {
    pub display: DisplayMode,
    pub channel: Channel,
    pub xres: u32,
    pub yres: u32,
    pub zoffset: u32,
    pub zscale: u32,
}

/// The number by which the shaders know a channel.
pub open spec fn channel_number(c: Channel) -> i32 {
    match c {
        Channel::All => 0,
        Channel::Red => 1,
        Channel::Green => 2,
        Channel::Blue => 3,
        Channel::Grey => 4,
        Channel::Rgb => 5,
    }
}

/// The colour components that a channel lets the pipeline write.
pub open spec fn channel_color_writes(c: Channel) -> ColorWrites {
    match c {
        Channel::Red => ColorWrites { red: true, green: false, blue: false, alpha: false },
        Channel::Green => ColorWrites { red: false, green: true, blue: false, alpha: false },
        Channel::Blue => ColorWrites { red: false, green: false, blue: true, alpha: false },
        _ => ColorWrites { red: true, green: true, blue: true, alpha: true },
    }
}

/// Wire frames are drawn as lines, every other mode fills its polygons.
pub open spec fn display_polygon_mode(d: DisplayMode) -> PolygonMode {
    match d {
        DisplayMode::Wire => PolygonMode::Line,
        _ => PolygonMode::Fill,
    }
}

/// The name of the fragment shader entry point that draws a display mode.
pub open spec fn display_frag_entry(d: DisplayMode) -> Seq<char> {
    match d {
        DisplayMode::Wire => "fs_wire"@,
        DisplayMode::Fill => "fs_fill"@,
        DisplayMode::Convert => "fs_convert"@,
        DisplayMode::Sdf => "fs_sdf"@,
    }
}

/// One axis of the grid: the axis' own value when it differs from its
/// default, else the shared resolution when that differs from its default,
/// else the axis default.
pub open spec fn resolve_res(axis: u32, axis_default: u32, resolution: u32) -> u32 {
    if axis != axis_default {
        axis
    } else if resolution != RES_DEFAULT {
        resolution
    } else {
        axis_default
    }
}

impl Default for DisplayMode {
    fn default() -> (d: Self)
        ensures
            d == DisplayMode::Sdf,
    {
        DisplayMode::Sdf
    }
}

impl Default for Channel {
    fn default() -> (c: Self)
        ensures
            c == Channel::All,
    {
        Channel::All
    }
}

impl Channel {
    /// The channel's number, as the shaders read it.
    pub fn value(&self) -> (r: i32)
        ensures
            r == channel_number(*self),
    {
        match self {
            Channel::All => 0,
            Channel::Red => 1,
            Channel::Green => 2,
            Channel::Blue => 3,
            Channel::Grey => 4,
            Channel::Rgb => 5,
        }
    }

    /// Whether the channel is the combined red, green and blue view.
    pub fn is_rgb(&self) -> (r: bool)
        ensures
            r <==> *self == Channel::Rgb,
    {
        *self == Channel::Rgb
    }

    /// The colour components that the pipeline writes for this channel:
    /// one colour for a single-colour channel, all components otherwise.
    pub fn color_writes(&self) -> (w: ColorWrites)
        ensures
            w == channel_color_writes(*self),
    {
        match self {
            Channel::Red => ColorWrites { red: true, green: false, blue: false, alpha: false },
            Channel::Green => ColorWrites { red: false, green: true, blue: false, alpha: false },
            Channel::Blue => ColorWrites { red: false, green: false, blue: true, alpha: false },
            _ => ColorWrites { red: true, green: true, blue: true, alpha: true },
        }
    }
}

/// The polygon mode of a display mode.
fn polygon_mode_of(display: DisplayMode) -> (m: PolygonMode)
    ensures
        m == display_polygon_mode(display),
{
    match display {
        DisplayMode::Wire => PolygonMode::Line,
        _ => PolygonMode::Fill,
    }
}

/// The fragment shader entry of a display mode.
fn frag_entry_of(display: DisplayMode) -> (e: &'static str)
    ensures
        e@ == display_frag_entry(display),
{
    match display {
        DisplayMode::Wire => "fs_wire",
        DisplayMode::Fill => "fs_fill",
        DisplayMode::Convert => "fs_convert",
        DisplayMode::Sdf => "fs_sdf",
    }
}

impl Default for Cli {
    /// Every field at its type's default: `Sdf`, `All`, zero resolutions,
    /// and the bit pattern of `0.0` for the offset and the scale.
    fn default() -> (c: Self)
        ensures
            c.display == DisplayMode::Sdf,
            c.channel == Channel::All,
            c.resolution == 0,
            c.xres == 0,
            c.yres == 0,
            c.offset == 0,
            c.scale == 0,
    {
        Cli {
            display: DisplayMode::Sdf,
            channel: Channel::All,
            resolution: 0,
            xres: 0,
            yres: 0,
            offset: 0,
            scale: 0,
        }
    }
}

impl Cli {
    /// The x resolution the viewer uses.
    pub open spec fn spec_xres(self) -> u32 {
        resolve_res(self.xres, XRES_DEFAULT, self.resolution)
    }

    /// The y resolution the viewer uses.
    pub open spec fn spec_yres(self) -> u32 {
        resolve_res(self.yres, YRES_DEFAULT, self.resolution)
    }

    /// The resolved arguments of this command line.
    pub open spec fn spec_args(self) -> Args {
        Args {
            display: self.display,
            channel: self.channel,
            xres: self.spec_xres(),
            yres: self.spec_yres(),
            zoffset: self.offset,
            zscale: self.scale,
        }
    }

    /// How the pipeline rasterises polygons for the chosen display mode.
    pub fn polygon_mode(&self) -> (m: PolygonMode)
        ensures
            m == display_polygon_mode(self.display),
    {
        polygon_mode_of(self.display)
    }

    /// The fragment shader entry point for the chosen display mode.
    pub fn frag_entry(&self) -> (e: &str)
        ensures
            e@ == display_frag_entry(self.display),
    {
        frag_entry_of(self.display)
    }

    /// The channel to display.
    pub fn channel(&self) -> (c: Channel)
        ensures
            c == self.channel,
    {
        self.channel
    }

    /// The x resolution of the grid: `--xres` when it was changed from its
    /// default, else `--resolution` when that was changed, else the default.
    pub fn xres(&self) -> (r: u32)
        ensures
            r == self.spec_xres(),
            self.xres != XRES_DEFAULT ==> r == self.xres,
            self.xres == XRES_DEFAULT && self.resolution != RES_DEFAULT ==> r == self.resolution,
            self.xres == XRES_DEFAULT && self.resolution == RES_DEFAULT ==> r == XRES_DEFAULT,
    {
        if self.xres != XRES_DEFAULT {
            self.xres
        } else if self.resolution != RES_DEFAULT {
            self.resolution
        } else {
            XRES_DEFAULT
        }
    }

    /// The y resolution of the grid: `--yres` when it was changed from its
    /// default, else `--resolution` when that was changed, else the default.
    pub fn yres(&self) -> (r: u32)
        ensures
            r == self.spec_yres(),
            self.yres != YRES_DEFAULT ==> r == self.yres,
            self.yres == YRES_DEFAULT && self.resolution != RES_DEFAULT ==> r == self.resolution,
            self.yres == YRES_DEFAULT && self.resolution == RES_DEFAULT ==> r == YRES_DEFAULT,
    {
        if self.yres != YRES_DEFAULT {
            self.yres
        } else if self.resolution != RES_DEFAULT {
            self.resolution
        } else {
            YRES_DEFAULT
        }
    }

    /// The arguments the program runs with: the display mode and channel as
    /// given, the resolved grid resolution and the z offset and scale.
    pub fn args(&self) -> (a: Args)
        ensures
            a == self.spec_args(),
    {
        Args {
            display: self.display,
            channel: self.channel,
            xres: self.xres(),
            yres: self.yres(),
            zoffset: self.offset,
            zscale: self.scale,
        }
    }

    /// The bit pattern of the z displacement between the colour grids.
    pub fn zoffset(&self) -> (o: u32)
        ensures
            o == self.offset,
    {
        self.offset
    }

    /// The bit pattern of the z scale factor.
    pub fn zscale(&self) -> (s: u32)
        ensures
            s == self.scale,
    {
        self.scale
    }
}

impl Args {
    /// The channel to display.
    pub fn channel(&self) -> (c: Channel)
        ensures
            c == self.channel,
    {
        self.channel
    }

    /// How the pipeline rasterises polygons for the display mode.
    pub fn polygon_mode(&self) -> (m: PolygonMode)
        ensures
            m == display_polygon_mode(self.display),
    {
        polygon_mode_of(self.display)
    }

    /// The fragment shader entry point for the display mode.
    pub fn frag_entry(&self) -> (e: &str)
        ensures
            e@ == display_frag_entry(self.display),
    {
        frag_entry_of(self.display)
    }
}

/// The resolved arguments select the same pipeline as the command line they
/// come from: the same channel, polygon mode and fragment shader entry.
pub proof fn lemma_args_select_same_pipeline(cli: Cli)
    ensures
        cli.spec_args().channel == cli.channel,
        display_polygon_mode(cli.spec_args().display) == display_polygon_mode(cli.display),
        display_frag_entry(cli.spec_args().display) == display_frag_entry(cli.display),
{
}

/// A value given explicitly for one axis always wins: the other inputs do not
/// change it.
pub proof fn lemma_explicit_axis_wins(cli: Cli)
    ensures
        cli.xres != XRES_DEFAULT ==> cli.spec_xres() == cli.xres,
        cli.yres != YRES_DEFAULT ==> cli.spec_yres() == cli.yres,
{
}

/// A shared resolution applies to both axes that were left at their default.
pub proof fn lemma_shared_resolution_fills_defaults(cli: Cli)
    requires
        cli.xres == XRES_DEFAULT,
        cli.yres == YRES_DEFAULT,
    ensures
        cli.spec_xres() == cli.spec_yres(),
        cli.resolution != RES_DEFAULT ==> cli.spec_xres() == cli.resolution,
{
}

/// Distinct channels have distinct numbers, all between 0 and 5.
pub proof fn lemma_channel_numbers_distinct(a: Channel, b: Channel)
    ensures
        0 <= channel_number(a) <= 5,
        a != b ==> channel_number(a) != channel_number(b),
{
}

/// Only the single-colour channels restrict which components are written;
/// they write exactly one colour and never alpha.
pub proof fn lemma_single_colour_channels(c: Channel)
    ensures
        (c == Channel::Red || c == Channel::Green || c == Channel::Blue) ==> {
            let w = channel_color_writes(c);
            &&& !w.alpha
            &&& w.red == (c == Channel::Red)
            &&& w.green == (c == Channel::Green)
            &&& w.blue == (c == Channel::Blue)
        },
        !(c == Channel::Red || c == Channel::Green || c == Channel::Blue) ==> channel_color_writes(c)
            == (ColorWrites { red: true, green: true, blue: true, alpha: true }),
{
}

/// Distinct display modes are drawn by distinct fragment shader entries.
pub proof fn lemma_frag_entries_distinct(a: DisplayMode, b: DisplayMode)
    ensures
        a != b ==> display_frag_entry(a) != display_frag_entry(b),
{
    reveal_strlit("fs_wire");
    reveal_strlit("fs_fill");
    reveal_strlit("fs_convert");
    reveal_strlit("fs_sdf");
    if a != b {
        let ea = display_frag_entry(a);
        let eb = display_frag_entry(b);
        if ea.len() == eb.len() {
            assert(ea[3] != eb[3]);
        }
    }
}

/// The resolved arguments keep the display mode, the channel and the z
/// offset and scale of the command line unchanged, and carry the grid
/// resolution of each axis: the axis' own value when it is not 51, else the
/// shared resolution when that is not 51, else 51.
pub proof fn lemma_args_resolve_command_line(cli: Cli)
    ensures
        cli.spec_args().display == cli.display,
        cli.spec_args().channel == cli.channel,
        cli.spec_args().zoffset == cli.offset,
        cli.spec_args().zscale == cli.scale,
        cli.spec_args().xres == cli.spec_xres(),
        cli.spec_args().yres == cli.spec_yres(),
        cli.spec_args().xres == (if cli.xres != 51 {
            cli.xres
        } else if cli.resolution != 51 {
            cli.resolution
        } else {
            51
        }),
        cli.spec_args().yres == (if cli.yres != 51 {
            cli.yres
        } else if cli.resolution != 51 {
            cli.resolution
        } else {
            51
        }),
{
}

/// The x and y resolutions are resolved independently: neither depends on
/// the other axis' value.
pub proof fn lemma_axes_independent(a: Cli, b: Cli)
    requires
        a.resolution == b.resolution,
    ensures
        a.xres == b.xres ==> a.spec_xres() == b.spec_xres(),
        a.yres == b.yres ==> a.spec_yres() == b.spec_yres(),
{
}

/// The channel numbers follow the declaration order, from 0 for `All` to 5
/// for `Rgb`.
pub proof fn lemma_channel_numbers()
    ensures
        channel_number(Channel::All) == 0,
        channel_number(Channel::Red) == 1,
        channel_number(Channel::Green) == 2,
        channel_number(Channel::Blue) == 3,
        channel_number(Channel::Grey) == 4,
        channel_number(Channel::Rgb) == 5,
{
}

/// Only wire frames are drawn as lines; every other mode fills. Each mode is
/// drawn by the fragment entry named after it.
pub proof fn lemma_display_modes(d: DisplayMode)
    ensures
        display_polygon_mode(d) == PolygonMode::Line <==> d == DisplayMode::Wire,
        display_polygon_mode(d) == PolygonMode::Fill <==> d != DisplayMode::Wire,
        display_frag_entry(DisplayMode::Wire) == "fs_wire"@,
        display_frag_entry(DisplayMode::Fill) == "fs_fill"@,
        display_frag_entry(DisplayMode::Convert) == "fs_convert"@,
        display_frag_entry(DisplayMode::Sdf) == "fs_sdf"@,
{
}

} // verus!
