use imagepipe::{rotate_buffer, Orientation};

// A colorful capital F, used as the input of every rotation test.
fn letter_f() -> (Vec<f32>, usize, usize) {
    rgb_grid(vec![
        "        ",
        " RRRRRR ",
        " GG     ",
        " BBBB   ",
        " GG     ",
        " GG     ",
        "        ",
    ])
}

fn rgb_grid(rows: Vec<&str>) -> (Vec<f32>, usize, usize) {
    let width = rows.first().expect("empty grid").len();
    let height = rows.len();
    let mut data: Vec<f32> = Vec::with_capacity(width * height * 3);
    for row in rows {
        for c in row.chars() {
            let (r, g, b) = match c {
                'R' => (1.0, 0.0, 0.0),
                'G' => (0.0, 1.0, 0.0),
                'B' => (0.0, 0.0, 1.0),
                'O' => (1.0, 1.0, 1.0),
                ' ' => (0.0, 0.0, 0.0),
                _ => panic!("unexpected color letter"),
            };
            data.push(r);
            data.push(g);
            data.push(b);
        }
    }
    (data, width, height)
}

#[test]
fn rotate_unknown() {
    let (f, w, h) = letter_f();
    assert_eq!(rotate_buffer(&f, w, h, Orientation::Unknown), f);
}

#[test]
fn rotate_normal() {
    let (f, w, h) = letter_f();
    assert_eq!(rotate_buffer(&f, w, h, Orientation::Normal), f);
}

#[test]
fn rotate_flip_x() {
    let (f, w, h) = letter_f();
    let (output, _, _) = rgb_grid(vec![
        "        ",
        " RRRRRR ",
        "     GG ",
        "   BBBB ",
        "     GG ",
        "     GG ",
        "        ",
    ]);
    assert_eq!(rotate_buffer(&f, w, h, Orientation::HorizontalFlip), output);
}

#[test]
fn rotate_flip_y() {
    let (f, w, h) = letter_f();
    let (output, _, _) = rgb_grid(vec![
        "        ",
        " GG     ",
        " GG     ",
        " BBBB   ",
        " GG     ",
        " RRRRRR ",
        "        ",
    ]);
    assert_eq!(rotate_buffer(&f, w, h, Orientation::VerticalFlip), output);
}

#[test]
fn rotate_rotate90_cw() {
    let (f, w, h) = letter_f();
    let (output, _, _) = rgb_grid(vec![
        "       ",
        " GGBGR ",
        " GGBGR ",
        "   B R ",
        "   B R ",
        "     R ",
        "     R ",
        "       ",
    ]);
    assert_eq!(rotate_buffer(&f, w, h, Orientation::Rotate90), output);
}

#[test]
fn rotate_rotate270_cw() {
    let (f, w, h) = letter_f();
    let (output, _, _) = rgb_grid(vec![
        "       ",
        " R     ",
        " R     ",
        " R B   ",
        " R B   ",
        " RGBGG ",
        " RGBGG ",
        "       ",
    ]);
    assert_eq!(rotate_buffer(&f, w, h, Orientation::Rotate270), output);
}

#[test]
fn rotate_rotate180() {
    let (f, w, h) = letter_f();
    let (output, _, _) = rgb_grid(vec![
        "        ",
        "     GG ",
        "     GG ",
        "   BBBB ",
        "     GG ",
        " RRRRRR ",
        "        ",
    ]);
    assert_eq!(rotate_buffer(&f, w, h, Orientation::Rotate180), output);
}

#[test]
fn rotate_transpose() {
    let (f, w, h) = letter_f();
    let (output, _, _) = rgb_grid(vec![
        "       ",
        " RGBGG ",
        " RGBGG ",
        " R B   ",
        " R B   ",
        " R     ",
        " R     ",
        "       ",
    ]);
    assert_eq!(rotate_buffer(&f, w, h, Orientation::Transpose), output);
}

#[test]
fn rotate_transverse() {
    let (f, w, h) = letter_f();
    let (output, _, _) = rgb_grid(vec![
        "       ",
        "     R ",
        "     R ",
        "   B R ",
        "   B R ",
        " GGBGR ",
        " GGBGR ",
        "       ",
    ]);
    assert_eq!(rotate_buffer(&f, w, h, Orientation::Transverse), output);
}
