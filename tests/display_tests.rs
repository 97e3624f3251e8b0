use basics::display::{City, Color, Degrees};

#[test]
fn colour_rendering() {
    assert_eq!(Color { red: 128, green: 255, blue: 90 }.to_string(), "RGB (128 255 90) 0x80FF5A");
    assert_eq!(Color { red: 0, green: 3, blue: 254 }.to_string(), "RGB (00 03 254) 0x0003FE");
    assert_eq!(Color { red: 0, green: 0, blue: 0 }.to_string(), "RGB (00 00 00) 0x000000");
    assert_eq!(Color { red: 128, green: 255, blue: 90 }.rgb(), 8453978);
}

fn deg(thousandths: u64, negative: bool) -> Degrees {
    Degrees { thousandths, negative }
}

#[test]
fn city_rendering() {
    let oslo = City { name: "Oslo".to_string(), lat: deg(59950, false), lon: deg(10750, false) };
    assert_eq!(oslo.to_string(), "Oslo: 59.950°N 10.750°E");
    let dublin = City { name: "Dublin".to_string(), lat: deg(53348, false), lon: deg(6260, true) };
    assert_eq!(dublin.to_string(), "Dublin: 53.348°N 6.260°W");
    let vancouver =
        City { name: "Vancouver".to_string(), lat: deg(49250, false), lon: deg(123100, true) };
    assert_eq!(vancouver.to_string(), "Vancouver: 49.250°N 123.100°W");
}

#[test]
fn city_small_and_southern_angles() {
    let c = City { name: "X".to_string(), lat: deg(5, true), lon: deg(0, false) };
    assert_eq!(c.to_string(), "X: 0.005°S 0.000°E");
}
