use coral::captcha::{lcg_u8, lcg_values, CaptchaError, CaptchaText, LCG_A, LCG_C};

fn rotate_point(x: f64, y: f64, angle_degrees: f64) -> (f64, f64) {
    let angle_radians = angle_degrees.to_radians();
    let new_x = x * angle_radians.cos() - y * angle_radians.sin();
    let new_y = x * angle_radians.sin() + y * angle_radians.cos();
    (new_x, new_y)
}

#[test]
fn test_rotation() {
    let (x, y) = rotate_point(2.0, 0.0, 45.0);
    let v = -0.5_f64;
    println!("{}, {} {}", x, y, v.ceil());
}

#[test]
fn test_rand() {
    let num = std::time::SystemTime::now().duration_since(std::time::UNIX_EPOCH).unwrap().as_secs();
    let c = num.to_be_bytes();
    println!("{:?}", c);
    let values = lcg_values(num, 4, 100);
    assert!(values.iter().all(|v| *v < 100));
}

#[test]
fn lcg_known_values() {
    assert_eq!(lcg_values(1, 3, 100), vec![48, 23, 98]);
    assert_eq!(lcg_u8(7, 4, 256), vec![186, 209, 252, 43]);
    assert_eq!(lcg_values(1u64 << 63, 2, 1000), vec![31, 498]);
    assert_eq!(lcg_values(5, 0, 9), Vec::<u64>::new());
    assert_eq!(lcg_values(5, 0, 0), Vec::<u64>::new());
    assert_eq!(lcg_u8(5, 0, 0), Vec::<u8>::new());
    let first = LCG_A.wrapping_mul(12345).wrapping_add(LCG_C) % 1000;
    assert_eq!(lcg_values(12345, 1, 1000), vec![first]);
}

#[test]
fn captcha_selection() {
    let text = CaptchaText::new().set_total_chars("你好啊世界");
    assert_eq!(text.total_chars.len(), 5);
    let text = text.set_sel_chars(&[4, 0, 2]).unwrap();
    assert_eq!(text.sel_chars, vec![4, 0, 2]);
    let bounds = vec![10, 11, 12, 13, 14];
    let (b, c) = text.selected(&bounds);
    assert_eq!(b, vec![14, 10, 12]);
    assert_eq!(c, vec!['界', '你', '啊']);
}

#[test]
fn captcha_selection_errors() {
    let text = CaptchaText::new().set_total_chars("ab");
    assert_eq!(text.set_sel_chars(&[0, 1, 1]).err(), Some(CaptchaError::InvalidTxtNums));
    let text = CaptchaText::new().set_total_chars("ab");
    assert_eq!(text.set_sel_chars(&[3]).err(), Some(CaptchaError::InvalidTxtNums));
    let text = CaptchaText::new().set_total_chars("ab");
    assert!(text.set_sel_chars(&[2]).is_ok());
}

#[test]
fn char_colors_overlap_by_position() {
    let bytes = lcg_u8(42, 9, 256);
    let colors = coral::captcha::char_colors(42, 3);
    assert_eq!(colors.len(), 3);
    for i in 0..3 {
        assert_eq!(colors[i], (bytes[i], bytes[i + 1], bytes[i + 2]));
    }
    assert!(coral::captcha::char_colors(1, 0).is_empty());
}
