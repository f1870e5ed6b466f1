use raymarching::cli::{Args, Channel, Cli, ColorWrites, DisplayMode, PolygonMode, RES_DEFAULT, XRES_DEFAULT, YRES_DEFAULT};

fn cli(display: DisplayMode, resolution: u32, xres: u32, yres: u32) -> Cli {
    Cli {
        display,
        channel: Channel::Green,
        resolution,
        xres,
        yres,
        offset: 0.25f32.to_bits(),
        scale: 1.0f32.to_bits(),
    }
}

#[test]
fn defaults_are_fifty_one() {
    assert_eq!(RES_DEFAULT, 51);
    assert_eq!(XRES_DEFAULT, 51);
    assert_eq!(YRES_DEFAULT, 51);
}

#[test]
fn resolution_all_defaults() {
    let c = cli(DisplayMode::Sdf, 51, 51, 51);
    assert_eq!(c.xres(), 51);
    assert_eq!(c.yres(), 51);
}

#[test]
fn shared_resolution_fills_both_axes() {
    let c = cli(DisplayMode::Sdf, 100, 51, 51);
    assert_eq!(c.xres(), 100);
    assert_eq!(c.yres(), 100);
}

#[test]
fn explicit_axis_wins_over_shared_resolution() {
    let c = cli(DisplayMode::Sdf, 100, 20, 51);
    assert_eq!(c.xres(), 20);
    assert_eq!(c.yres(), 100);
    let c = cli(DisplayMode::Sdf, 100, 51, 7);
    assert_eq!(c.xres(), 100);
    assert_eq!(c.yres(), 7);
}

#[test]
fn explicit_zero_is_kept() {
    let c = cli(DisplayMode::Sdf, 51, 0, 0);
    assert_eq!(c.xres(), 0);
    assert_eq!(c.yres(), 0);
}

#[test]
fn derived_default_cli() {
    let c = Cli::default();
    assert_eq!(c.display, DisplayMode::Sdf);
    assert_eq!(c.channel, Channel::All);
    assert_eq!(c.resolution, 0);
    // the zero axes differ from their defaults, so they are kept
    assert_eq!(c.xres(), 0);
    assert_eq!(c.yres(), 0);
    assert_eq!(f32::from_bits(c.zoffset()), 0.0);
    assert_eq!(f32::from_bits(c.zscale()), 0.0);
}

#[test]
fn enum_defaults() {
    assert_eq!(DisplayMode::default(), DisplayMode::Sdf);
    assert_eq!(Channel::default(), Channel::All);
}

#[test]
fn frag_entries() {
    assert_eq!(cli(DisplayMode::Wire, 51, 51, 51).frag_entry(), "fs_wire");
    assert_eq!(cli(DisplayMode::Fill, 51, 51, 51).frag_entry(), "fs_fill");
    assert_eq!(cli(DisplayMode::Convert, 51, 51, 51).frag_entry(), "fs_convert");
    assert_eq!(cli(DisplayMode::Sdf, 51, 51, 51).frag_entry(), "fs_sdf");
}

#[test]
fn polygon_modes() {
    assert_eq!(cli(DisplayMode::Wire, 51, 51, 51).polygon_mode(), PolygonMode::Line);
    assert_eq!(cli(DisplayMode::Fill, 51, 51, 51).polygon_mode(), PolygonMode::Fill);
    assert_eq!(cli(DisplayMode::Convert, 51, 51, 51).polygon_mode(), PolygonMode::Fill);
    assert_eq!(cli(DisplayMode::Sdf, 51, 51, 51).polygon_mode(), PolygonMode::Fill);
}

#[test]
fn args_resolve_the_command_line() {
    let c = cli(DisplayMode::Wire, 64, 51, 32);
    let a = c.args();
    assert_eq!(
        a,
        Args {
            display: DisplayMode::Wire,
            channel: Channel::Green,
            xres: 64,
            yres: 32,
            zoffset: 0.25f32.to_bits(),
            zscale: 1.0f32.to_bits(),
        }
    );
    assert_eq!(a.channel(), c.channel());
    assert_eq!(a.polygon_mode(), c.polygon_mode());
    assert_eq!(a.frag_entry(), c.frag_entry());
    assert_eq!(f32::from_bits(c.zoffset()), 0.25);
    assert_eq!(f32::from_bits(c.zscale()), 1.0);
}

#[test]
fn channel_values() {
    let all = [Channel::All, Channel::Red, Channel::Green, Channel::Blue, Channel::Grey, Channel::Rgb];
    for (i, c) in all.iter().enumerate() {
        assert_eq!(c.value(), i as i32);
        assert_eq!(c.is_rgb(), *c == Channel::Rgb);
    }
}

#[test]
fn channel_color_writes() {
    let only = |r, g, b| ColorWrites { red: r, green: g, blue: b, alpha: false };
    let every = ColorWrites { red: true, green: true, blue: true, alpha: true };
    assert_eq!(Channel::Red.color_writes(), only(true, false, false));
    assert_eq!(Channel::Green.color_writes(), only(false, true, false));
    assert_eq!(Channel::Blue.color_writes(), only(false, false, true));
    assert_eq!(Channel::All.color_writes(), every);
    assert_eq!(Channel::Grey.color_writes(), every);
    assert_eq!(Channel::Rgb.color_writes(), every);
}
