use chip8::display::Display;

#[test]
fn set_pixel() {
    let mut display = Display::new();

    display.set_pixel(1, 1, true);

    assert_eq!(true, display.get_pixel(1, 1));
}

#[test]
fn cls() {
    let mut display = Display::new();

    display.set_pixel(1, 1, true);
    display.cls();

    assert_eq!(false, display.get_pixel(1, 1));
}

#[test]
fn draw() {
    let mut display = Display::new();

    let sprite: [u8; 2] = [0b00110011, 0b11001010];

    display.draw(0, 0, &sprite);

    assert_eq!(false, display.get_pixel(0, 0));
    assert_eq!(false, display.get_pixel(1, 0));
    assert_eq!(true, display.get_pixel(2, 0));
    assert_eq!(true, display.get_pixel(3, 0));
    assert_eq!(false, display.get_pixel(4, 0));
    assert_eq!(false, display.get_pixel(5, 0));
    assert_eq!(true, display.get_pixel(6, 0));
    assert_eq!(true, display.get_pixel(7, 0));

    assert_eq!(true, display.get_pixel(0, 1));
    assert_eq!(true, display.get_pixel(1, 1));
    assert_eq!(false, display.get_pixel(2, 1));
    assert_eq!(false, display.get_pixel(3, 1));
    assert_eq!(true, display.get_pixel(4, 1));
    assert_eq!(false, display.get_pixel(5, 1));
    assert_eq!(true, display.get_pixel(6, 1));
    assert_eq!(false, display.get_pixel(7, 1));
}

#[test]
fn draw_detects_collisions() {
    let mut display = Display::new();

    let mut sprite: [u8; 1] = [0b00110000];
    let mut collision = display.draw(0, 0, &sprite);
    assert_eq!(false, collision);

    sprite = [0b00000011];
    collision = display.draw(0, 0, &sprite);
    assert_eq!(false, collision);

    sprite = [0b00000001];
    collision = display.draw(0, 0, &sprite);
    assert_eq!(true, collision);
}
