use ip_switch::icon::{
    adjust_icon_color, fallback_icon, hex_byte, hex_to_rgba, recolor, ColorError, Rgba,
    FALLBACK_SIZE,
};

fn unit(color: Rgba) -> (f32, f32, f32, f32) {
    (
        color.red as f32 / 255.0,
        color.green as f32 / 255.0,
        color.blue as f32 / 255.0,
        color.alpha as f32 / 255.0,
    )
}

#[test]
fn test_hex_to_rgba() {
    assert_eq!(unit(hex_to_rgba("#3366FF").unwrap()), (0.2, 0.4, 1.0, 1.0));
    assert_eq!(unit(hex_to_rgba("3366FF").unwrap()), (0.2, 0.4, 1.0, 1.0));
    assert_eq!(unit(hex_to_rgba("#FF0000FF").unwrap()), (1.0, 0.0, 0.0, 1.0));
}

#[test]
fn six_digits_write_an_opaque_colour() {
    assert_eq!(hex_to_rgba("#3366FF"), Ok(Rgba { red: 0x33, green: 0x66, blue: 0xFF, alpha: 255 }));
    assert_eq!(hex_to_rgba("000000"), Ok(Rgba { red: 0, green: 0, blue: 0, alpha: 255 }));
    assert_eq!(hex_to_rgba("abcdef"), Ok(Rgba { red: 0xAB, green: 0xCD, blue: 0xEF, alpha: 255 }));
    assert_eq!(hex_to_rgba("AbCdEf"), Ok(Rgba { red: 0xAB, green: 0xCD, blue: 0xEF, alpha: 255 }));
}

#[test]
fn eight_digits_write_the_alpha_too() {
    assert_eq!(hex_to_rgba("#11223344"), Ok(Rgba { red: 0x11, green: 0x22, blue: 0x33, alpha: 0x44 }));
    assert_eq!(hex_to_rgba("ffffff00"), Ok(Rgba { red: 255, green: 255, blue: 255, alpha: 0 }));
}

#[test]
fn white_space_and_number_signs_are_taken_off() {
    let blue = Ok(Rgba { red: 0x33, green: 0x66, blue: 0xFF, alpha: 255 });
    assert_eq!(hex_to_rgba("  #3366FF\n"), blue);
    assert_eq!(hex_to_rgba("###3366FF"), blue);
    assert_eq!(hex_to_rgba("# 3366FF"), Err(ColorError::Length(7)));
    assert_eq!(hex_to_rgba("3366FF#"), Err(ColorError::Length(7)));
}

#[test]
fn plus_sign_stands_for_a_leading_zero() {
    assert_eq!(hex_to_rgba("+f+0+a"), Ok(Rgba { red: 15, green: 0, blue: 10, alpha: 255 }));
    assert_eq!(hex_byte('+', 'F'), Some(15));
    assert_eq!(hex_byte('F', '+'), None);
    assert_eq!(hex_byte('+', '+'), None);
    assert_eq!(hex_byte('-', '1'), None);
    assert_eq!(hex_byte('f', 'f'), Some(255));
    assert_eq!(hex_byte('1', '0'), Some(16));
    assert_eq!(hex_byte('0', 'g'), None);
    assert_eq!(hex_byte('G', '0'), None);
}

#[test]
fn wrong_number_of_digits_is_refused() {
    assert_eq!(hex_to_rgba(""), Err(ColorError::Length(0)));
    assert_eq!(hex_to_rgba("#"), Err(ColorError::Length(0)));
    assert_eq!(hex_to_rgba("#FFF"), Err(ColorError::Length(3)));
    assert_eq!(hex_to_rgba("#3366FF1"), Err(ColorError::Length(7)));
    assert_eq!(hex_to_rgba("#3366FF112"), Err(ColorError::Length(9)));
    assert_eq!(
        ColorError::Length(3).message(),
        "无效的颜色格式: 期望 6 或 8 位十六进制，得到 3 位"
    );
}

#[test]
fn first_bad_component_is_named() {
    assert_eq!(hex_to_rgba("#GG66FF"), Err(ColorError::Red));
    assert_eq!(hex_to_rgba("#33G6FF"), Err(ColorError::Green));
    assert_eq!(hex_to_rgba("#3366F "), Err(ColorError::Length(5)));
    assert_eq!(hex_to_rgba("#3366Fx"), Err(ColorError::Blue));
    assert_eq!(hex_to_rgba("#3366FFzz"), Err(ColorError::Alpha));
    assert_eq!(hex_to_rgba("#xx66FFzz"), Err(ColorError::Red));
    assert_eq!(hex_to_rgba("#33xxxxFF"), Err(ColorError::Green));
    assert_eq!(ColorError::Red.message(), "无效的红色分量");
    assert_eq!(ColorError::Green.message(), "无效的绿色分量");
    assert_eq!(ColorError::Blue.message(), "无效的蓝色分量");
    assert_eq!(ColorError::Alpha.message(), "无效的透明度分量");
}

#[test]
fn visible_pixels_take_the_target_colour() {
    let image = vec![1, 2, 3, 255, 4, 5, 6, 0, 7, 8, 9, 1];
    assert_eq!(
        adjust_icon_color(image, (10, 20, 30)),
        vec![10, 20, 30, 255, 4, 5, 6, 0, 10, 20, 30, 1]
    );
}

#[test]
fn partial_pixel_at_the_end_is_left_alone() {
    assert_eq!(adjust_icon_color(vec![1, 2, 3, 9, 4, 5, 6], (0, 0, 0)), vec![0, 0, 0, 9, 4, 5, 6]);
    assert_eq!(adjust_icon_color(vec![1, 2, 3], (0, 0, 0)), vec![1, 2, 3]);
    assert_eq!(adjust_icon_color(vec![], (0, 0, 0)), Vec::<u8>::new());
    assert_eq!(adjust_icon_color(vec![1, 2, 3, 4], (7, 8, 9)), vec![7, 8, 9, 4]);
}

#[test]
fn fallback_icon_is_white_all_over() {
    let icon = fallback_icon();
    assert_eq!(FALLBACK_SIZE, 256);
    assert_eq!(icon.len(), 256 * 256 * 4);
    assert!(icon.iter().all(|byte| *byte == 255));
}

#[test]
fn drawing_takes_the_colour_where_it_asks_for_one() {
    assert_eq!(
        recolor("<path fill=\"currentColor\" stroke=\"currentColor\"/>", "#FFFFFF"),
        "<path fill=\"#FFFFFF\" stroke=\"#FFFFFF\"/>"
    );
    assert_eq!(recolor("<path fill=\"red\"/>", "#FFFFFF"), "<path fill=\"red\"/>");
    assert_eq!(recolor("currentColorcurrentColor", ""), "");
    assert_eq!(recolor("currentcurrentColor", "x"), "currentx");
    assert_eq!(recolor("currentColor", "currentColor"), "currentColor");
}
