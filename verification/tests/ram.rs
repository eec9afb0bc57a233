use rust_xs_test::ram::rewrite_ram_config;

const OLD: &str = "#define EMU_RAM_SIZE (256 * 1024 * 1024UL)";
const OLD_OFF: &str = "// #define EMU_RAM_SIZE (256 * 1024 * 1024UL)";
const NEW_OFF: &str = "// #define EMU_RAM_SIZE (8 * 1024 * 1024 * 1024UL)";
const NEW: &str = "#define EMU_RAM_SIZE (8 * 1024 * 1024 * 1024UL)";

/// The rewrite done with std's own `lines`.
fn reference(contents: &str) -> String {
    let mut out = String::new();
    for line in contents.lines() {
        let l = if line.contains(OLD) {
            OLD_OFF
        } else if line.contains(NEW_OFF) {
            NEW
        } else {
            line
        };
        out.push_str(l);
        out.push('\n');
    }
    out
}

#[test]
fn rewrite_switches_ram_size() {
    let header = format!("#ifndef RAM_H\n{}\n{}\n#endif", OLD, NEW_OFF);
    let expected = format!("#ifndef RAM_H\n{}\n{}\n#endif\n", OLD_OFF, NEW);
    assert_eq!(rewrite_ram_config(&header), expected);
}

#[test]
fn rewrite_matches_lines_semantics() {
    for input in [
        "",
        "\n",
        "a",
        "a\n",
        "a\r\nb\r\n",
        "a\r\r\nb",
        "a\rb\n\n\nc",
        "x #define EMU_RAM_SIZE (256 * 1024 * 1024UL) y\r\n",
        "// #define EMU_RAM_SIZE (8 * 1024 * 1024 * 1024UL)",
        "ünïcödé\n€\n",
    ] {
        assert_eq!(rewrite_ram_config(input), reference(input), "input {:?}", input);
    }
}

#[test]
fn rewrite_twice_is_rewrite_once() {
    let header = format!("{}\r\n{}\nint x;\n\n", OLD, NEW_OFF);
    let once = rewrite_ram_config(&header);
    assert_eq!(rewrite_ram_config(&once), once);
    assert_eq!(once.lines().count(), header.lines().count());
}

#[test]
fn rewrite_twice_differs_on_kept_line_ending_in_cr() {
    let once = rewrite_ram_config("x\r\r\n");
    assert_eq!(once, "x\r\n");
    assert_eq!(rewrite_ram_config(&once), "x\n");
}
