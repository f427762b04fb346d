use salewatch::title::Title;

#[test]
fn test_parse_title_1() {
    let title = "[GPU] ASUS - NVIDIA GeForce RTX 4070 Ti TUF 12GB GDDR6X PCI Express 4.0 Graphics Card - Black $799.99";
    let expected = Title {
        post_id: "1234".to_owned(),
        product_type: "GPU".to_owned(),
        description: "ASUS - NVIDIA GeForce RTX 4070 Ti TUF 12GB GDDR6X PCI Express 4.0 Graphics Card - Black".to_owned(),
        price_dollars: 799,
        price_cents: 99,
        extra_details: None
    };

    let parsed = Title::parse(title, "1234");
    assert!(parsed.is_some());
    let parsed = parsed.unwrap();

    assert_eq!(parsed, expected);
}

#[test]
fn test_parse_title_2() {
    let title = "[MOBO] ASUS TUF GAMING B650M-PLUS WIFI AM5 Ryzen 7000 mATX gaming motherboard(14 power stages, PCIe 5.0 M.2 support, DDR5 memory, 2.5 Gb Ethernet, WiFi 6, USB4 support and Aura Sync) $196 FS";
    let expected = Title {
        post_id: "1234".to_owned(),
        product_type: "MOBO".to_owned(),
        description: "ASUS TUF GAMING B650M-PLUS WIFI AM5 Ryzen 7000 mATX gaming motherboard(14 power stages, PCIe 5.0 M.2 support, DDR5 memory, 2.5 Gb Ethernet, WiFi 6, USB4 support and Aura Sync)".to_owned(),
        price_dollars: 196,
        price_cents: 0,
        extra_details: Some("FS".to_owned())
    };

    let parsed = Title::parse(title, "1234");
    assert!(parsed.is_some());
    let parsed = parsed.unwrap();

    assert_eq!(parsed, expected);
}

#[test]
fn test_parse_title_3() {
    let title = "[PSU] Corsair HX1000 80+ Platinum - $163.19 ($254.99-$91.80) MICROCENTER IN STORE ONLY";
    let expected = Title {
        post_id: "1234".to_owned(),
        product_type: "PSU".to_owned(),
        description: "Corsair HX1000 80+ Platinum -".to_owned(),
        price_dollars: 163,
        price_cents: 19,
        extra_details: Some("($254.99-$91.80) MICROCENTER IN STORE ONLY".to_owned()),
    };

    let parsed = Title::parse(title, "1234");
    assert!(parsed.is_some());
    let parsed = parsed.unwrap();

    assert_eq!(parsed, expected);
}

#[test]
fn test_parse_title_without_bracket_is_dropped() {
    assert_eq!(Title::parse("ASUS RTX 4070 $799.99", "1"), None);
}

#[test]
fn test_parse_title_without_price_is_dropped() {
    assert_eq!(Title::parse("[GPU] ASUS RTX 4070", "1"), None);
}

#[test]
fn test_parse_title_cents_too_large_is_dropped() {
    // The cents group must fit a signed byte, as stored.
    assert_eq!(Title::parse("[GPU] card $10.999", "1"), None);
}

#[test]
fn test_parse_title_skips_bracket_that_cannot_match() {
    // The earliest bracket from which the whole shape can be read wins; a
    // bracket whose content leaves the category class is passed over.
    let parsed = Title::parse("[w/e] note [GPU] card $12", "1").unwrap();
    assert_eq!(parsed.product_type, "GPU");
    assert_eq!(parsed.price_dollars, 12);
    assert_eq!(parsed.price_cents, 0);
}
