use upscale_bridge::{decimal_string, script_path, CommandLine, UpscaleRequest};

fn request(image_path: &str, scale_factor: i32, creativity: i32) -> UpscaleRequest {
    UpscaleRequest { image_path: image_path.to_string(), scale_factor, creativity }
}

#[test]
fn script_path_is_relative_to_the_manifest_directory() {
    assert_eq!(script_path("/opt/app/src-tauri"), "/opt/app/src-tauri/../python/upscale.py");
    assert_eq!(script_path(""), "/../python/upscale.py");
    assert_eq!(script_path("C:\\app\\src-tauri"), "C:\\app\\src-tauri/../python/upscale.py");
}

#[test]
fn command_line_runs_python3_with_four_arguments_in_order() {
    let line = request("/tmp/a.png", 4, 50).command_line("/opt/app/src-tauri");
    assert_eq!(
        line,
        CommandLine {
            program: "python3".to_string(),
            args: vec![
                "/opt/app/src-tauri/../python/upscale.py".to_string(),
                "/tmp/a.png".to_string(),
                "4".to_string(),
                "50".to_string(),
            ],
        }
    );
}

#[test]
fn command_line_keeps_the_order_for_negative_numbers() {
    let line = request("in.png", -2, -100).command_line("/m");
    assert_eq!(line.program, "python3");
    assert_eq!(line.args, vec!["/m/../python/upscale.py", "in.png", "-2", "-100"]);
}

#[test]
fn command_line_keeps_an_empty_image_path_as_an_argument() {
    let line = request("", 0, 0).command_line("/m");
    assert_eq!(line.args, vec!["/m/../python/upscale.py", "", "0", "0"]);
}

#[test]
fn command_line_passes_the_image_path_unchanged() {
    let path = "  dir with spaces/\u{00e9}t\u{00e9} \u{1F600}.png\n";
    let line = request(path, 2, 35).command_line("/m");
    assert_eq!(line.args.len(), 4);
    assert_eq!(line.args[1], path);
}

#[test]
fn command_line_handles_the_extreme_integers() {
    let line = request("x", i32::MIN, i32::MAX).command_line("/m");
    assert_eq!(line.args[2], "-2147483648");
    assert_eq!(line.args[3], "2147483647");
}

#[test]
fn command_lines_of_different_requests_do_not_mix() {
    let first = request("/tmp/a.png", 4, 50);
    let second = request("/tmp/b.png", 2, 10);
    let first_line = first.command_line("/m");
    let second_line = second.command_line("/m");
    let first_again = first.command_line("/m");
    assert_eq!(first_line.args, vec!["/m/../python/upscale.py", "/tmp/a.png", "4", "50"]);
    assert_eq!(second_line.args, vec!["/m/../python/upscale.py", "/tmp/b.png", "2", "10"]);
    assert_eq!(first_line, first_again);
}

#[test]
fn decimal_string_writes_exact_values() {
    assert_eq!(decimal_string(0), "0");
    assert_eq!(decimal_string(7), "7");
    assert_eq!(decimal_string(10), "10");
    assert_eq!(decimal_string(-1), "-1");
    assert_eq!(decimal_string(1005), "1005");
    assert_eq!(decimal_string(-90210), "-90210");
    assert_eq!(decimal_string(i32::MAX), "2147483647");
    assert_eq!(decimal_string(i32::MIN), "-2147483648");
}

#[test]
fn decimal_string_agrees_with_the_standard_formatting() {
    let mut n: i64 = i32::MIN as i64;
    while n <= i32::MAX as i64 {
        let value = n as i32;
        assert_eq!(decimal_string(value), value.to_string());
        n += 65_521;
    }
    for value in -1100..1100 {
        assert_eq!(decimal_string(value), value.to_string());
    }
    for shift in 0..31 {
        let power = 1i32 << shift;
        for value in [power - 1, power, -power, -power + 1] {
            assert_eq!(decimal_string(value), value.to_string());
        }
    }
}

#[test]
fn decimal_string_reads_back_as_the_same_integer() {
    for value in [0, 1, -1, 9, 10, -10, 99, 100, 4, 50, 12345, -98765, i32::MAX, i32::MIN] {
        assert_eq!(decimal_string(value).parse::<i32>(), Ok(value));
    }
    assert_ne!(decimal_string(12), decimal_string(-12));
    assert_ne!(decimal_string(1), decimal_string(10));
}

#[test]
fn different_requests_have_different_arguments() {
    let base = request("/tmp/a.png", 4, 50).command_line("/m").args;
    assert_ne!(request("/tmp/b.png", 4, 50).command_line("/m").args, base);
    assert_ne!(request("/tmp/a.png", 5, 50).command_line("/m").args, base);
    assert_ne!(request("/tmp/a.png", 4, 51).command_line("/m").args, base);
    assert_ne!(request("/tmp/a.png", 50, 4).command_line("/m").args, base);
    assert_eq!(request("/tmp/a.png", 4, 50).command_line("/m").args, base);
}
