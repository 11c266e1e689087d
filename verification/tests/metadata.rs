use vivitui::data::Extent;
use vivitui::data::LayerInfo;
use vivitui::data::LayerRecord;
use vivitui::data::PositionMap;
use vivitui::data::Srs;
use vivitui::data::project_to_display;
use vivitui::data::should_transform;

fn extent_from_f64(xmin: f64, ymin: f64, xmax: f64, ymax: f64) -> Extent {
    Extent {
        xmin_bits: xmin.to_bits(),
        ymin_bits: ymin.to_bits(),
        xmax_bits: xmax.to_bits(),
        ymax_bits: ymax.to_bits(),
    }
}

fn wgs84_srs() -> Srs {
    Srs {
        name: String::from("WGS 84"),
        wkt: String::from("GEOGCS[\"WGS 84\"]"),
        proj4: String::from("+proj=longlat +datum=WGS84 +no_defs"),
    }
}

#[test]
fn zero_extent_matches_positive_zero_bits() {
    let e = extent_from_f64(0.0, 0.0, 0.0, 0.0);
    assert!(e.is_zero());
    assert_eq!(e, Extent::zero());
    // The sentinel is the bit pattern of +0.0 exactly; -0.0 is a real value.
    let e = extent_from_f64(-0.0, 0.0, 0.0, 0.0);
    assert!(!e.is_zero());
}

#[test]
fn extent_defaults_to_zero_when_unreadable() {
    assert!(Extent::from_raw(None).is_zero());
    let e = extent_from_f64(1.5, -2.5, 3.5, 4.5);
    assert_eq!(Extent::from_raw(Some(e)), e);
    assert_eq!(f64::from_bits(e.xmin_bits), 1.5);
    assert_eq!(f64::from_bits(e.ymin_bits), -2.5);
}

#[test]
fn srs_defaults_to_all_empty_when_absent() {
    let s = Srs::from_raw(None);
    assert!(s.is_absent());
    assert_eq!(s.name, "");
    assert_eq!(s.wkt, "");
    assert_eq!(s.proj4, "");
    let s = Srs::from_raw(Some(wgs84_srs()));
    assert!(!s.is_absent());
    assert_eq!(s.name, "WGS 84");
}

#[test]
fn projector_degrades_on_zero_extent() {
    let t = PositionMap { xmin_bits: 7, ymin_bits: 8, xmax_bits: 9, ymax_bits: 10 };
    let r = project_to_display(&Extent::zero(), &wgs84_srs(), Some(t));
    assert!(r.is_zero());
}

#[test]
fn projector_degrades_on_absent_srs() {
    let e = extent_from_f64(10.0, 20.0, 30.0, 40.0);
    let t = PositionMap { xmin_bits: 7, ymin_bits: 8, xmax_bits: 9, ymax_bits: 10 };
    let r = project_to_display(&e, &Srs::empty(), Some(t));
    assert!(r.is_zero());
    assert!(!should_transform(&e, &Srs::empty()));
}

#[test]
fn projector_degrades_on_failed_transform() {
    let e = extent_from_f64(10.0, 20.0, 30.0, 40.0);
    let r = project_to_display(&e, &wgs84_srs(), None);
    assert!(r.is_zero());
}

#[test]
fn projector_passes_successful_transform_through() {
    let e = extent_from_f64(500000.0, 4649776.0, 501000.0, 4650776.0);
    let s = Srs {
        name: String::from("WGS 84 / UTM zone 31N"),
        wkt: String::from("PROJCS[\"WGS 84 / UTM zone 31N\"]"),
        proj4: String::from("+proj=utm +zone=31 +datum=WGS84 +units=m +no_defs"),
    };
    assert!(should_transform(&e, &s));
    let t = PositionMap {
        xmin_bits: (3.0f64).to_bits(),
        ymin_bits: (42.0f64).to_bits(),
        xmax_bits: (3.01f64).to_bits(),
        ymax_bits: (42.01f64).to_bits(),
    };
    let r = project_to_display(&e, &s, Some(t));
    assert_eq!(r, t);
    assert_eq!(f64::from_bits(r.ymin_bits), 42.0);
}

#[test]
fn layer_without_geometries_gets_zero_extent_and_display_bbox() {
    let rec = LayerRecord {
        name: String::from("empty_layer"),
        extent: None,
        srs: Some(wgs84_srs()),
        transformed: None,
        feature_number: 0,
    };
    let info = LayerInfo::from_record(&rec);
    assert!(info.extent.is_zero());
    assert!(info.position_map.is_zero());
    assert_eq!(info.name, "empty_layer");
    assert_eq!(info.feature_number, 0);
    assert!(!info.srs.is_absent());
}

#[test]
fn layer_without_srs_gets_empty_descriptor_and_zero_display_bbox() {
    let leaked = PositionMap { xmin_bits: 1, ymin_bits: 2, xmax_bits: 3, ymax_bits: 4 };
    let rec = LayerRecord {
        name: String::from("bare"),
        extent: Some(extent_from_f64(1.0, 2.0, 3.0, 4.0)),
        srs: None,
        transformed: Some(leaked),
        feature_number: 9,
    };
    let info = LayerInfo::from_record(&rec);
    assert!(info.srs.is_absent());
    assert!(info.position_map.is_zero());
    assert!(!info.extent.is_zero());
}

#[test]
fn from_records_keeps_order_and_derives_each_layer() {
    let records = vec![
        LayerRecord {
            name: String::from("roads"),
            extent: Some(extent_from_f64(1.0, 2.0, 3.0, 4.0)),
            srs: Some(wgs84_srs()),
            transformed: Some(PositionMap {
                xmin_bits: (1.0f64).to_bits(),
                ymin_bits: (2.0f64).to_bits(),
                xmax_bits: (3.0f64).to_bits(),
                ymax_bits: (4.0f64).to_bits(),
            }),
            feature_number: 120,
        },
        LayerRecord {
            name: String::from("buildings"),
            extent: None,
            srs: None,
            transformed: None,
            feature_number: 0,
        },
    ];
    let infos = LayerInfo::from_records(&records);
    assert_eq!(infos.len(), 2);
    assert_eq!(infos[0].name, "roads");
    assert_eq!(infos[0].feature_number, 120);
    assert!(!infos[0].position_map.is_zero());
    assert_eq!(infos[1].name, "buildings");
    assert!(infos[1].extent.is_zero());
    assert!(infos[1].position_map.is_zero());
}
