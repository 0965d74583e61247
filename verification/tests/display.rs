use beam::display::{
    after_probe, check_startup, check_switch, clamp_resize_dimensions, connected_output,
    display_number, generate_nvidia_xorg_config, generate_xorg_config, is_temporary,
    is_worth_a_warning, keyboard_command, layout_command, lock_holder, needs_resize, not_ready,
    pa_config, plan_config, resize_commands, xorg_command, GpuConfig, Probe,
};
use beam::modeline::generate_modeline;

#[test]
fn xorg_config_has_generous_vram_for_dynamic_resize() {
    // Even at a small initial resolution, VRAM must be large enough
    // for fullscreen (e.g. 4K). Otherwise xrandr --output fails with
    // BadMatch when the user enters fullscreen.
    let config = generate_xorg_config(800, 600);
    assert!(
        config.contains("VideoRam    262144"),
        "VRAM should be 256MB"
    );
    // Check Virtual max size is set for dynamic resolution
    assert!(
        config.contains("Virtual 7680 4320"),
        "Virtual screen should support up to 8K"
    );
}

#[test]
fn xorg_config_includes_initial_modeline() {
    let config = generate_xorg_config(1920, 1080);
    assert!(config.contains("Modeline    \"1920x1080\""));
    assert!(config.contains("Modes   \"1920x1080\""));
}

#[test]
fn modeline_format_is_valid() {
    let ml = generate_modeline(1920, 1080, 60);
    let parts: Vec<&str> = ml.split_whitespace().collect();
    // Should be: clock h h_sync_start h_sync_end h_total v v_sync_start v_sync_end v_total +hsync +vsync
    assert_eq!(parts.len(), 11, "Modeline should have 11 fields: {ml}");
    // Pixel clock should be positive
    let clock: f64 = parts[0].parse().expect("clock should be a float");
    assert!(clock > 0.0, "Pixel clock should be positive");
    // h_total > width
    let h_total: u32 = parts[4].parse().unwrap();
    assert!(h_total > 1920, "h_total should be > width");
    // v_total > height
    let v_total: u32 = parts[8].parse().unwrap();
    assert!(v_total > 1080, "v_total should be > height");
    // Sync flags
    assert_eq!(parts[9], "+hsync");
    assert_eq!(parts[10], "+vsync");
}

#[test]
fn modeline_dimensions_are_correct() {
    let ml = generate_modeline(1800, 1168, 60);
    let parts: Vec<&str> = ml.split_whitespace().collect();
    assert_eq!(parts[1], "1800", "hdisp should match width");
    assert_eq!(parts[5], "1168", "vdisp should match height");
}

#[test]
fn clamp_resize_rejects_too_small() {
    assert_eq!(clamp_resize_dimensions(100, 100, 0, 0), None);
    assert_eq!(clamp_resize_dimensions(319, 480, 0, 0), None);
    assert_eq!(clamp_resize_dimensions(640, 239, 0, 0), None);
}

#[test]
fn clamp_resize_rejects_too_large() {
    assert_eq!(clamp_resize_dimensions(7681, 1080, 0, 0), None);
    assert_eq!(clamp_resize_dimensions(1920, 4321, 0, 0), None);
}

#[test]
fn clamp_resize_enforces_max_bounds() {
    // max_width=1920, max_height=1080
    let (w, h) = clamp_resize_dimensions(2560, 1440, 1920, 1080).unwrap();
    assert_eq!(w, 1920);
    assert_eq!(h, 1080);
}

#[test]
fn clamp_resize_unlimited_max() {
    // max=0 means unlimited
    let (w, h) = clamp_resize_dimensions(3840, 2160, 0, 0).unwrap();
    assert_eq!(w, 3840);
    assert_eq!(h, 2160);
}

#[test]
fn clamp_resize_enforces_min_640x480() {
    let (w, h) = clamp_resize_dimensions(320, 240, 0, 0).unwrap();
    assert_eq!(w, 640);
    assert_eq!(h, 480);
}

#[test]
fn clamp_resize_enforces_even_dimensions() {
    // Odd dimensions should be rounded down to even
    let (w, h) = clamp_resize_dimensions(1921, 1081, 0, 0).unwrap();
    assert_eq!(w, 1920);
    assert_eq!(h, 1080);
}

#[test]
fn clamp_resize_passthrough_normal() {
    let (w, h) = clamp_resize_dimensions(1920, 1080, 3840, 2160).unwrap();
    assert_eq!(w, 1920);
    assert_eq!(h, 1080);
}

#[test]
fn clamp_resize_even_after_max_clamp() {
    // If max bound produces an odd number, still round to even
    let (w, h) = clamp_resize_dimensions(2000, 1200, 1921, 1081).unwrap();
    assert_eq!(w, 1920);
    assert_eq!(h, 1080);
}

// --- mode lines ---

fn expected_modeline(width: u32, height: u32, refresh: u32) -> String {
    let pixel_clock = (width as f64 * height as f64 * refresh as f64) / 1_000_000.0 * 1.2;
    format!(
        "{:.2} {} {} {} {} {} {} {} {} +hsync +vsync",
        pixel_clock,
        width,
        width + 48,
        width + 80,
        width + 160,
        height,
        height + 3,
        height + 8,
        height + 33,
    )
}

#[test]
fn modeline_is_exact() {
    assert_eq!(
        generate_modeline(1920, 1080, 60),
        "149.30 1920 1968 2000 2080 1080 1083 1088 1113 +hsync +vsync"
    );
}

#[test]
fn modeline_matches_double_arithmetic() {
    let mut seed: u64 = 0x9e3779b97f4a7c15;
    for round in 0..20_000u32 {
        seed = seed.wrapping_mul(6364136223846793005).wrapping_add(1442695040888963407);
        let a = (seed >> 33) as u32;
        seed = seed.wrapping_mul(6364136223846793005).wrapping_add(1442695040888963407);
        let b = (seed >> 33) as u32;
        seed = seed.wrapping_mul(6364136223846793005).wrapping_add(1442695040888963407);
        let c = (seed >> 33) as u32;
        let (w, h, r) = match round % 4 {
            0 => (a % 7681, b % 4321, 60),
            1 => (a % 200, b % 200, c % 10),
            2 => (a * 2, b * 2, c * 2),
            _ => (25 * (a % 300) + 25 * (a % 2), 25 * (b % 200), 60),
        };
        let (w, h) = (w.min(u32::MAX - 160), h.min(u32::MAX - 33));
        assert_eq!(generate_modeline(w, h, r), expected_modeline(w, h, r), "{w} {h} {r}");
    }
    for (w, h, r) in [
        (0, 0, 0),
        (1, 1, 1),
        (u32::MAX - 160, u32::MAX - 33, u32::MAX),
        (625, 1, 60),
        (25, 25, 60),
        (4096, 1, 1),
        (1875, 1875, 60),
    ] {
        assert_eq!(generate_modeline(w, h, r), expected_modeline(w, h, r), "{w} {h} {r}");
    }
}

// --- configuration files ---

#[test]
fn dummy_config_is_exact() {
    let config = generate_xorg_config(1920, 1080);
    assert!(config.starts_with("Section \"Device\"\n    Identifier  \"Beam Virtual GPU\"\n"));
    assert!(config.contains(
        "    Modeline    \"1920x1080\" 149.30 1920 1968 2000 2080 1080 1083 1088 1113 +hsync +vsync\nEndSection\n"
    ));
    assert!(config.contains("        Virtual 7680 4320\n        Modes   \"1920x1080\"\n    EndSubSection\n"));
    assert!(config.ends_with("    Option \"AutoAddDevices\" \"false\"\nEndSection\n"));
}

#[test]
fn nvidia_config_names_the_card() {
    let config = generate_nvidia_xorg_config("PCI:1:0:0", "DFP-2", "/etc/X11/beam/e.bin");
    assert!(config.contains("    BusID       \"PCI:1:0:0\"\n"));
    assert!(config.contains("    Option      \"ConnectedMonitor\" \"DFP-2\"\n"));
    assert!(config.contains("    Option      \"CustomEDID\" \"DFP-2:/etc/X11/beam/e.bin\"\n"));
}

#[test]
fn pulse_script_is_exact() {
    assert_eq!(
        pa_config("/tmp/beam-pulse-10"),
        "load-module module-null-sink sink_name=beam sink_properties=device.description=Beam\n\
         set-default-sink beam\n\
         load-module module-native-protocol-unix socket=/tmp/beam-pulse-10/native auth-anonymous=1\n\
         load-module module-always-sink\n"
    );
}

#[test]
fn config_plans() {
    let nvidia = GpuConfig { driver: "nvidia".to_string(), bus_id: None, dfp_output: None };
    let plan = plan_config(&nvidia, 20, 800, 600, true);
    assert_eq!(plan.make_dir.as_deref(), Some("/etc/X11/beam"));
    assert_eq!(plan.edid_path.as_deref(), Some("/etc/X11/beam/beam-edid-20.bin"));
    assert_eq!(plan.config_path, "/etc/X11/beam/beam-xorg-20.conf");
    assert!(plan.content.unwrap().contains("\"DFP-1:/etc/X11/beam/beam-edid-20.bin\""));
    let dummy = GpuConfig { driver: "dummy".to_string(), bus_id: None, dfp_output: None };
    let plan = plan_config(&dummy, 20, 800, 600, true);
    assert_eq!(plan.config_path, "/etc/X11/beam-xorg.conf");
    assert!(plan.content.is_none() && plan.edid_path.is_none() && plan.make_dir.is_none());
    let plan = plan_config(&dummy, 20, 800, 600, false);
    assert_eq!(plan.config_path, "/tmp/beam-xorg-20.conf");
    assert_eq!(plan.content.unwrap(), generate_xorg_config(800, 600));
}

#[test]
fn xorg_commands() {
    let c = xorg_command(20, "/etc/X11/beam/beam-xorg-20.conf", true);
    assert_eq!(c.program, "Xorg");
    assert_eq!(
        c.args,
        [":20", "-config", "beam/beam-xorg-20.conf", "-noreset", "-novtswitch", "-nolisten", "tcp"]
    );
    assert_eq!(xorg_command(20, "/tmp/x.conf", true).program, "/usr/lib/xorg/Xorg");
    let c = xorg_command(20, "/tmp/x.conf", false);
    assert_eq!((c.program.as_str(), c.args[2].as_str()), ("Xorg", "/tmp/x.conf"));
    assert!(needs_resize("/etc/X11/beam-xorg.conf") && !needs_resize("/tmp/x.conf"));
    assert!(is_temporary("/tmp/x.conf") && !is_temporary("/etc/X11/beam-xorg.conf"));
    assert_eq!(
        keyboard_command(":20").args,
        ["-rules", "evdev", "-model", "pc105", "-layout", "us"]
    );
    assert_eq!(layout_command(":20", "de").args, ["de"]);
}

#[test]
fn startup_checks() {
    assert_eq!(check_startup(7, None, true), Ok(()));
    assert_eq!(check_startup(7, None, false), Err("Xorg failed to start on :7".to_string()));
    assert_eq!(
        check_startup(7, Some("exit status: 1"), true),
        Err("Xorg exited immediately with status: exit status: 1 on :7".to_string())
    );
    assert_eq!(lock_holder("      1234\n"), Some(1234));
    assert_eq!(lock_holder("-5"), Some(-5));
    assert_eq!(lock_holder("2147483647"), Some(i32::MAX));
    assert_eq!(lock_holder("2147483648"), None);
    assert_eq!(lock_holder("-2147483648"), Some(i32::MIN));
    assert_eq!(lock_holder("x"), None);
    assert_eq!(lock_holder(""), None);
}

// --- resizing ---

#[test]
fn resizing_steps() {
    assert!(after_probe(0, true) == Probe::Ready);
    assert!(after_probe(8, false) == Probe::Wait);
    assert!(after_probe(9, false) == Probe::GiveUp);
    assert_eq!(not_ready(":3"), "X display :3 not ready after 2 seconds");
    let r = resize_commands(":3", 800, 600, "DUMMY0");
    let mut words = vec!["--newmode".to_string(), "800x600".to_string()];
    words.extend(generate_modeline(800, 600, 60).split_whitespace().map(str::to_string));
    assert_eq!(r.new_mode.args, words);
    assert_eq!(r.add_mode.args, ["--addmode", "DUMMY0", "800x600"]);
    assert_eq!(r.switch.args, ["--output", "DUMMY0", "--mode", "800x600"]);
    assert!(!is_worth_a_warning(true, ""));
    assert!(!is_worth_a_warning(false, "mode already exists here"));
    assert!(is_worth_a_warning(false, "BadMatch"));
    assert_eq!(check_switch(8, 6, true, "x"), Ok(()));
    assert_eq!(
        check_switch(8, 6, false, "BadMatch"),
        Err("Failed to set resolution to 8x6: BadMatch".to_string())
    );
}

#[test]
fn outputs_are_detected() {
    let stdout = "Screen 0: minimum 320 x 200\nHDMI-1 disconnected\nDFP-1 connected primary 1920x1080+0+0\nDUMMY1 connected\n";
    assert_eq!(connected_output(stdout), "DFP-1");
    assert_eq!(connected_output("nothing\n"), "DUMMY0");
    assert_eq!(connected_output(""), "DUMMY0");
}

#[test]
fn display_numbers() {
    assert_eq!(display_number(":42"), 42);
    assert_eq!(display_number("::7"), 7);
    assert_eq!(display_number("host:0"), 10);
    assert_eq!(display_number(""), 10);
}

#[test]
fn clamping_twice_is_clamping_once() {
    let (w, h) = clamp_resize_dimensions(501, 4319, 1001, 999).unwrap();
    assert_eq!((w, h), (640, 998));
    assert_eq!(clamp_resize_dimensions(w, h, 1001, 999), Some((w, h)));
}
