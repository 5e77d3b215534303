use grib::datetime::GribDate;
use grib::error::GribError;
use grib::message::Message;
use grib::sections::indicator::Discipline;
use grib::sections::local_use::LocalUseSection;
use grib::templates::data_representation::SimplePackingTemplate;
use grib::templates::grid_definition::GridDefinitionTemplate;
use grib::templates::product::parameter_for;
use grib::templates::product::TemperatureProduct;
use grib::templates::product::TimeUnit;
use grib::utils::bits_from_bytes;
use grib::utils::read_u16_from_bytes;
use grib::utils::read_u32_from_bytes;
use grib::utils::read_u64_from_bytes;
use grib::utils::signed_angle;
use grib::utils::signed_scale;

fn angle(v: i64) -> u32 {
    if v < 0 {
        0x8000_0000 | ((-v) as u32)
    } else {
        v as u32
    }
}

fn scale16(v: i16) -> u16 {
    if v < 0 {
        0x8000 | ((-v) as u16)
    } else {
        v as u16
    }
}

fn indicator(discipline: u8, total: u64) -> Vec<u8> {
    let mut v = b"GRIB".to_vec();
    v.extend_from_slice(&[0, 0, discipline, 2]);
    v.extend_from_slice(&total.to_be_bytes());
    v
}

fn identification(date: &GribDate) -> Vec<u8> {
    let mut v = vec![0, 0, 0, 21, 1, 0, 0, 0, 0, 0, 0, 0];
    v.extend_from_slice(&date.year.to_be_bytes());
    v.extend_from_slice(&[date.month, date.day, date.hour, date.minute, date.second, 0, 1]);
    assert_eq!(v.len(), 21);
    v
}

fn local_use(payload: &[u8]) -> Vec<u8> {
    let mut v = ((5 + payload.len()) as u32).to_be_bytes().to_vec();
    v.push(2);
    v.extend_from_slice(payload);
    v
}

#[allow(clippy::too_many_arguments)]
fn grid_section(
    count: u32,
    ni: u32,
    nj: u32,
    la1: i64,
    lo1: i64,
    la2: i64,
    lo2: i64,
    di: u32,
    dj: u32,
    template: u16,
) -> Vec<u8> {
    let mut v = vec![0, 0, 0, 72, 3, 0];
    v.extend_from_slice(&count.to_be_bytes());
    v.extend_from_slice(&[0, 0]);
    v.extend_from_slice(&template.to_be_bytes());
    v.push(1); // shape of the earth
    v.push(0);
    v.extend_from_slice(&[0, 0, 0, 0]); // radius
    v.push(0);
    v.extend_from_slice(&[0, 0, 0, 0]); // major axis
    v.push(0);
    v.extend_from_slice(&[0, 0, 0, 0]); // minor axis
    v.extend_from_slice(&ni.to_be_bytes());
    v.extend_from_slice(&nj.to_be_bytes());
    v.extend_from_slice(&[0, 0, 0, 0]); // basic angle
    v.extend_from_slice(&[0, 0, 0, 0]); // subdivisions
    v.extend_from_slice(&angle(la1).to_be_bytes());
    v.extend_from_slice(&angle(lo1).to_be_bytes());
    v.push(0x30); // resolution and component flags
    v.extend_from_slice(&angle(la2).to_be_bytes());
    v.extend_from_slice(&angle(lo2).to_be_bytes());
    v.extend_from_slice(&di.to_be_bytes());
    v.extend_from_slice(&dj.to_be_bytes());
    v.push(0); // scanning mode
    assert_eq!(v.len(), 72);
    v
}

fn product_section(category: u8, number: u8, time_unit: u8, forecast_time: u32) -> Vec<u8> {
    let mut v = vec![0, 0, 0, 34, 4, 0, 0, 0, 0];
    v.extend_from_slice(&[category, number, 2, 0, 0, 0, 0, 0, time_unit]);
    v.extend_from_slice(&forecast_time.to_be_bytes());
    v.extend_from_slice(&[1, 0, 0, 0, 0, 0, 255, 0, 0, 0, 0, 0]);
    assert_eq!(v.len(), 34);
    v
}

fn drs_section(count: u32, reference: f32, e: i16, d: i16, nbits: u8) -> Vec<u8> {
    let mut v = vec![0, 0, 0, 21, 5];
    v.extend_from_slice(&count.to_be_bytes());
    v.extend_from_slice(&[0, 0]);
    v.extend_from_slice(&reference.to_bits().to_be_bytes());
    v.extend_from_slice(&scale16(e).to_be_bytes());
    v.extend_from_slice(&scale16(d).to_be_bytes());
    v.extend_from_slice(&[nbits, 0]);
    assert_eq!(v.len(), 21);
    v
}

fn bitmap_none() -> Vec<u8> {
    vec![0, 0, 0, 6, 6, 255]
}

fn bitmap_with(bits: &[u8]) -> Vec<u8> {
    let mut v = ((6 + bits.len()) as u32).to_be_bytes().to_vec();
    v.push(6);
    v.push(0);
    v.extend_from_slice(bits);
    v
}

fn data_section(payload: &[u8]) -> Vec<u8> {
    let mut v = ((5 + payload.len()) as u32).to_be_bytes().to_vec();
    v.push(7);
    v.extend_from_slice(payload);
    v
}

/// A complete synthetic message: a 2x2 regular lat-lon grid of 8-bit
/// values, no bitmap, temperature in kelvin.
fn simple_message() -> Vec<u8> {
    let date = GribDate { year: 2020, month: 1, day: 1, hour: 0, minute: 0, second: 0 };
    let mut body = identification(&date);
    body.extend(grid_section(4, 2, 2, 10_000_000, 20_000_000, 11_000_000, 21_000_000, 1_000_000, 1_000_000, 0));
    body.extend(product_section(0, 0, 1, 6));
    body.extend(drs_section(4, 0.0, 0, 0, 8));
    body.extend(bitmap_none());
    body.extend(data_section(&[1, 2, 3, 4]));
    body.extend(b"7777");
    let total = (16 + body.len()) as u64;
    let mut v = indicator(0, total);
    v.extend(body);
    v
}

/// Like `simple_message`, but with a bitmap marking only points 0 and 2
/// present, and two packed values.
fn bitmap_message() -> Vec<u8> {
    let date = GribDate { year: 2020, month: 1, day: 1, hour: 0, minute: 0, second: 0 };
    let mut body = identification(&date);
    body.extend(grid_section(4, 2, 2, 10_000_000, 20_000_000, 11_000_000, 21_000_000, 1_000_000, 1_000_000, 0));
    body.extend(product_section(0, 0, 1, 6));
    body.extend(drs_section(2, 0.0, 0, 0, 8));
    body.extend(bitmap_with(&[0b1010_0000]));
    body.extend(data_section(&[7, 9]));
    body.extend(b"7777");
    let total = (16 + body.len()) as u64;
    let mut v = indicator(0, total);
    v.extend(body);
    v
}

fn scaled_f64(reference_bits: u32, binary_scale: i16, decimal_scale: i16, raw: u64) -> f64 {
    (f32::from_bits(reference_bits) as f64 + raw as f64 * 2f64.powi(binary_scale as i32))
        / 10f64.powi(decimal_scale as i32)
}

#[test]
fn read_u16_exact() {
    let data = [0x12u8, 0x34, 0x56];
    assert_eq!(read_u16_from_bytes(&data, 0), Some(0x1234));
    assert_eq!(read_u16_from_bytes(&data, 1), Some(0x3456));
    assert_eq!(read_u16_from_bytes(&data, 2), None);
}

#[test]
fn read_u32_exact() {
    let data = [0x01u8, 0x02, 0x03, 0x04, 0x05];
    assert_eq!(read_u32_from_bytes(&data, 0), Some(0x01020304));
    assert_eq!(read_u32_from_bytes(&data, 1), Some(0x02030405));
    assert_eq!(read_u32_from_bytes(&data, 2), None);
}

#[test]
fn read_u64_exact() {
    let data = [0u8, 0, 0, 0, 0, 0, 0x12, 0x34];
    assert_eq!(read_u64_from_bytes(&data, 0), Some(0x1234));
    assert_eq!(read_u64_from_bytes(&data, 1), None);
}

#[test]
fn bits_from_bytes_msb_first() {
    assert_eq!(bits_from_bytes(&[0b1010_0001]), vec![1, 0, 1, 0, 0, 0, 0, 1]);
    assert_eq!(bits_from_bytes(&[0xFF, 0x00]).len(), 16);
    assert_eq!(bits_from_bytes(&[]), Vec::<u8>::new());
}

#[test]
fn sign_and_magnitude_fields() {
    assert_eq!(signed_angle(5_000_000), 5_000_000);
    assert_eq!(signed_angle(0x8000_0000 | 5_000_000), -5_000_000);
    assert_eq!(signed_scale(3), 3);
    assert_eq!(signed_scale(0x8000 | 3), -3);
}

#[test]
fn unpack_single_byte_value() {
    // R=0, E=0, D=0, N=8, raw byte 0x0F decodes to exactly [15.0].
    let t = SimplePackingTemplate {
        reference_bits: 0f32.to_bits(),
        binary_scale: 0,
        decimal_scale: 0,
        bits_per_value: 8,
    };
    let raw = t.unpack_all(&[0x0F], 1).unwrap();
    assert_eq!(raw, vec![15]);
    let decoded: Vec<f64> = raw
        .iter()
        .map(|r| scaled_f64(t.reference_bits, t.binary_scale, t.decimal_scale, *r))
        .collect();
    assert_eq!(decoded, vec![15.0]);
}

#[test]
fn unpack_scales_apply() {
    // (1.5 + 3 * 2^1) / 10^1 == 0.75
    let t = SimplePackingTemplate {
        reference_bits: 1.5f32.to_bits(),
        binary_scale: 1,
        decimal_scale: 1,
        bits_per_value: 8,
    };
    let raw = t.unpack_all(&[3], 1).unwrap();
    let v = scaled_f64(t.reference_bits, t.binary_scale, t.decimal_scale, raw[0]);
    assert!((v - 0.75).abs() < 1e-12);
}

#[test]
fn unpack_crosses_byte_boundaries() {
    // Three 5-bit values packed MSB-first: 10110 01011 10001 (+1 pad bit).
    let t = SimplePackingTemplate {
        reference_bits: 0,
        binary_scale: 0,
        decimal_scale: 0,
        bits_per_value: 5,
    };
    let raw = t.unpack_all(&[0b10110_010, 0b11_10001_0], 3).unwrap();
    assert_eq!(raw, vec![0b10110, 0b01011, 0b10001]);
}

#[test]
fn unpack_range_matches_unpack_all() {
    let t = SimplePackingTemplate {
        reference_bits: 0,
        binary_scale: 0,
        decimal_scale: 0,
        bits_per_value: 8,
    };
    let payload = [10u8, 20, 30, 40];
    let all = t.unpack_all(&payload, 4).unwrap();
    for k in 0..4 {
        let one = t.unpack_range(&payload, k, k + 1).unwrap();
        assert_eq!(one, vec![all[k]]);
    }
}

#[test]
fn unpack_fails_closed() {
    let t = SimplePackingTemplate {
        reference_bits: 0,
        binary_scale: 0,
        decimal_scale: 0,
        bits_per_value: 8,
    };
    // Five 8-bit values do not fit four bytes.
    assert_eq!(t.unpack_all(&[0, 0, 0, 0], 5), Err(GribError::MalformedSection));
    let wide = SimplePackingTemplate {
        reference_bits: 0,
        binary_scale: 0,
        decimal_scale: 0,
        bits_per_value: 65,
    };
    assert_eq!(wide.unpack_all(&[0; 100], 1), Err(GribError::MalformedSection));
}

#[test]
fn parameter_resolution_example() {
    // discipline Meteorological(0), category Temperature(0), number 0.
    let p = parameter_for(0, 0, 0).unwrap();
    assert_eq!(p.name, "Temperature");
    assert_eq!(p.abbrev, "TMP");
    assert_eq!(p.unit, "K");
    // A number absent from every table resolves to nothing.
    assert!(parameter_for(0, 0, 255).is_none());
}

#[test]
fn parameter_tables_cover_other_families() {
    let rh = parameter_for(0, 1, 1).unwrap();
    assert_eq!(rh.abbrev, "RH");
    assert_eq!(rh.unit, "%");
    let gust = parameter_for(0, 2, 22).unwrap();
    assert_eq!(gust.abbrev, "GUST");
    let pres = parameter_for(0, 3, 0).unwrap();
    assert_eq!(pres.abbrev, "PRES");
    let waves = parameter_for(10, 0, 3).unwrap();
    assert_eq!(waves.abbrev, "HTSGW");
    assert_eq!(waves.name, "significant wave height of combined wind and swell waves");
    assert!(parameter_for(1, 0, 0).is_none());
}

#[test]
fn enum_from_value_tables() {
    assert_eq!(TemperatureProduct::from_value(0), Some(TemperatureProduct::Temperature));
    assert_eq!(TemperatureProduct::from_value(12), Some(TemperatureProduct::HeatIndex));
    assert_eq!(TemperatureProduct::from_value(9), None);
    assert_eq!(TimeUnit::from_value(1), Some(TimeUnit::Hour));
    assert_eq!(TimeUnit::from_value(11), None);
    assert_eq!(Discipline::from_value(10), Discipline::Oceanographic);
    assert_eq!(Discipline::from_value(200), Discipline::Missing);
}

#[test]
fn short_buffer_is_malformed() {
    // Shorter than the minimum indicator section length: a clean error,
    // never an out-of-range fault.
    assert!(matches!(Message::parse(&[], 0), Err(GribError::MalformedSection)));
    assert!(matches!(Message::parse(b"GRIB", 0), Err(GribError::MalformedSection)));
    assert!(matches!(Message::parse(b"GRIB\x00\x00\x00\x02\x00\x00", 0), Err(GribError::MalformedSection)));
    let msg = simple_message();
    assert!(matches!(Message::parse(&msg[..15], 0), Err(GribError::MalformedSection)));
}

#[test]
fn truncated_message_is_malformed() {
    let msg = simple_message();
    for cut in [20, 40, 100, msg.len() - 1] {
        assert!(Message::parse(&msg[..cut], 0).is_err());
    }
}

#[test]
fn total_length_mismatch_is_malformed() {
    let mut msg = simple_message();
    msg[15] += 1; // corrupt the declared total length
    assert!(matches!(Message::parse(&msg, 0), Err(GribError::MalformedSection)));
}

#[test]
fn out_of_order_sections_are_incomplete() {
    let msg = simple_message();
    // Start parsing inside the message: the first section is not an
    // indicator section.
    assert!(matches!(Message::parse(&msg, 16), Err(GribError::IncompleteMessage)));
}

#[test]
fn parse_reads_header_fields() {
    let msg = simple_message();
    let m = Message::parse(&msg, 0).unwrap();
    assert_eq!(m.len(), msg.len());
    assert_eq!(m.discipline(), Discipline::Meteorological);
    assert_eq!(
        m.reference_date(),
        GribDate { year: 2020, month: 1, day: 1, hour: 0, minute: 0, second: 0 }
    );
}

#[test]
fn parse_accepts_local_use_section() {
    let date = GribDate { year: 2021, month: 6, day: 15, hour: 12, minute: 30, second: 0 };
    let mut body = identification(&date);
    body.extend(local_use(&[9, 9, 9]));
    body.extend(grid_section(1, 1, 1, 0, 0, 0, 0, 1, 1, 0));
    body.extend(product_section(0, 0, 1, 0));
    body.extend(drs_section(1, 0.0, 0, 0, 8));
    body.extend(bitmap_none());
    body.extend(data_section(&[42]));
    body.extend(b"7777");
    let total = (16 + body.len()) as u64;
    let mut msg = indicator(0, total);
    msg.extend(body);
    let m = Message::parse(&msg, 0).unwrap();
    assert!(m.local_use_section.is_some());
    assert!(m.local_use_section.as_ref().unwrap().is_local_use());
    let d = m.data().unwrap();
    assert_eq!(d.values, vec![Some(42)]);
}

#[test]
fn local_use_section_from_data() {
    let sec = local_use(&[1, 2, 3]);
    let s = LocalUseSection::from_data(&sec, 0);
    assert!(s.is_local_use());
    assert_eq!(s.data(), &sec[..]);
    let ind = indicator(0, 100);
    let not_local = LocalUseSection::from_data(&ind, 0);
    assert!(!not_local.is_local_use());
}

#[test]
fn parse_all_two_messages_and_trailing_garbage() {
    let mut buf = simple_message();
    buf.extend(bitmap_message());
    buf.extend_from_slice(&[0x47, 0x52, 0x49]); // 3 truncated trailing bytes
    let messages = Message::parse_all(&buf);
    assert_eq!(messages.len(), 2);
    assert!(messages[0].data().is_ok());
    assert!(messages[1].data().is_ok());
}

#[test]
fn parse_all_empty_and_garbage_buffers() {
    assert_eq!(Message::parse_all(&[]).len(), 0);
    assert_eq!(Message::parse_all(&[1, 2, 3, 4, 5, 6, 7, 8]).len(), 0);
}

#[test]
fn decode_simple_grid() {
    let msg = simple_message();
    let m = Message::parse(&msg, 0).unwrap();
    let d = m.data().unwrap();
    assert_eq!(d.values, vec![Some(1), Some(2), Some(3), Some(4)]);
    let decoded: Vec<f64> = d
        .values
        .iter()
        .map(|v| scaled_f64(d.reference_bits, d.binary_scale, d.decimal_scale, v.unwrap()))
        .collect();
    assert_eq!(decoded, vec![1.0, 2.0, 3.0, 4.0]);
}

#[test]
fn locations_and_point_lookup_agree_with_decode() {
    // A synthetic no-bitmap message with N grid points: decoded length ==
    // N == locations length, and lookup at locations()[i] equals
    // decode()[i] within floating-point tolerance.
    let msg = simple_message();
    let m = Message::parse(&msg, 0).unwrap();
    let d = m.data().unwrap();
    let locations = m.data_locations().unwrap();
    assert_eq!(d.values.len(), 4);
    assert_eq!(locations.len(), 4);
    for i in 0..locations.len() {
        let sv = m.data_at_location(&locations[i]).unwrap();
        let via_lookup = scaled_f64(sv.reference_bits, sv.binary_scale, sv.decimal_scale, sv.raw);
        let via_decode =
            scaled_f64(d.reference_bits, d.binary_scale, d.decimal_scale, d.values[i].unwrap());
        assert!((via_lookup - via_decode).abs() < 1e-9);
    }
}

#[test]
fn locations_are_row_major() {
    let msg = simple_message();
    let m = Message::parse(&msg, 0).unwrap();
    let locations = m.data_locations().unwrap();
    assert_eq!(
        locations,
        vec![
            (10_000_000, 20_000_000),
            (10_000_000, 21_000_000),
            (11_000_000, 20_000_000),
            (11_000_000, 21_000_000),
        ]
    );
}

#[test]
fn bitmap_yields_one_entry_per_grid_point() {
    // However many presence bits are set, the mapping yields exactly one
    // entry per grid point.
    let msg = bitmap_message();
    let m = Message::parse(&msg, 0).unwrap();
    let d = m.data().unwrap();
    assert_eq!(d.values.len(), 4);
    assert_eq!(d.values, vec![Some(7), None, Some(9), None]);
}

#[test]
fn bitmap_point_lookup() {
    let msg = bitmap_message();
    let m = Message::parse(&msg, 0).unwrap();
    let locations = m.data_locations().unwrap();
    let present = m.data_at_location(&locations[2]).unwrap();
    assert_eq!(present.raw, 9);
    assert_eq!(m.data_at_location(&locations[1]), Err(GribError::NoDataAtIndex));
}

#[test]
fn point_lookup_rounds_and_bounds() {
    let msg = simple_message();
    let m = Message::parse(&msg, 0).unwrap();
    // 0.4 of a step away from a grid point still rounds to it.
    let sv = m.data_at_location(&(10_400_000, 20_000_000)).unwrap();
    assert_eq!(sv.raw, 1);
    // More than half a step outside the grid extent fails.
    assert_eq!(
        m.data_at_location(&(8_000_000, 20_000_000)),
        Err(GribError::OutOfBounds)
    );
    assert_eq!(
        m.data_at_location(&(10_000_000, 23_000_000)),
        Err(GribError::OutOfBounds)
    );
}

#[test]
fn metadata_fields() {
    let msg = simple_message();
    let m = Message::parse(&msg, 0).unwrap();
    let md = m.metadata().unwrap();
    assert_eq!(md.discipline, Discipline::Meteorological);
    assert_eq!(md.variable_name, "Temperature");
    assert_eq!(md.variable_abbreviation, "TMP");
    assert_eq!(md.units, "K");
    assert_eq!(md.region, ((10_000_000, 20_000_000), (11_000_000, 21_000_000)));
    assert_eq!(md.location_grid, (2, 2));
    assert_eq!(md.location_resolution, (1_000_000, 1_000_000));
    assert_eq!(md.data_template_number, 0);
    assert_eq!(md.data_point_count, 4);
    assert_eq!(
        md.reference_date,
        GribDate { year: 2020, month: 1, day: 1, hour: 0, minute: 0, second: 0 }
    );
    // 6 hours after the reference date.
    assert_eq!(
        md.forecast_date,
        GribDate { year: 2020, month: 1, day: 1, hour: 6, minute: 0, second: 0 }
    );
}

#[test]
fn metadata_is_pure() {
    let msg = simple_message();
    let m = Message::parse(&msg, 0).unwrap();
    let md1 = m.metadata().unwrap();
    let md2 = m.metadata().unwrap();
    assert_eq!(md1, md2);
}

#[test]
fn forecast_date_crosses_month_boundary() {
    let date = GribDate { year: 2020, month: 1, day: 31, hour: 23, minute: 0, second: 0 };
    let mut body = identification(&date);
    body.extend(grid_section(1, 1, 1, 0, 0, 0, 0, 1, 1, 0));
    body.extend(product_section(0, 0, 1, 2)); // 2 hours
    body.extend(drs_section(1, 0.0, 0, 0, 8));
    body.extend(bitmap_none());
    body.extend(data_section(&[0]));
    body.extend(b"7777");
    let total = (16 + body.len()) as u64;
    let mut msg = indicator(0, total);
    msg.extend(body);
    let m = Message::parse(&msg, 0).unwrap();
    let fd = m.forecast_date().unwrap();
    assert_eq!(fd, GribDate { year: 2020, month: 2, day: 1, hour: 1, minute: 0, second: 0 });
    // Variable names of a batch resolve through the same tables.
    let names = Message::variable_names(Message::parse_all(&msg));
    assert_eq!(names, vec![Some("Temperature".to_string())]);
}

#[test]
fn unsupported_grid_template_fails_closed() {
    let date = GribDate { year: 2020, month: 1, day: 1, hour: 0, minute: 0, second: 0 };
    let mut body = identification(&date);
    body.extend(grid_section(4, 2, 2, 0, 0, 1_000_000, 1_000_000, 1_000_000, 1_000_000, 30));
    body.extend(product_section(0, 0, 1, 6));
    body.extend(drs_section(4, 0.0, 0, 0, 8));
    body.extend(bitmap_none());
    body.extend(data_section(&[1, 2, 3, 4]));
    body.extend(b"7777");
    let total = (16 + body.len()) as u64;
    let mut msg = indicator(0, total);
    msg.extend(body);
    let m = Message::parse(&msg, 0).unwrap();
    // Parsing still succeeds; only grid-dependent accessors fail.
    assert!(matches!(m.metadata(), Err(GribError::UnsupportedTemplate(_))));
    assert!(matches!(m.data_locations(), Err(GribError::UnsupportedTemplate(_))));
    assert!(m.grid_definition_section.grid_definition_template() == GridDefinitionTemplate::Unsupported);
    // The data path does not need the grid template's geometry.
    assert!(m.data().is_ok());
}

#[test]
fn unknown_parameter_triple() {
    let date = GribDate { year: 2020, month: 1, day: 1, hour: 0, minute: 0, second: 0 };
    let mut body = identification(&date);
    body.extend(grid_section(1, 1, 1, 0, 0, 0, 0, 1, 1, 0));
    body.extend(product_section(0, 0, 1, 0));
    body.extend(drs_section(1, 0.0, 0, 0, 8));
    body.extend(bitmap_none());
    body.extend(data_section(&[0]));
    body.extend(b"7777");
    let total = (16 + body.len()) as u64;
    let mut msg = indicator(0, total);
    // Parameter number 255 is absent from every table.
    msg.extend(body);
    let pos = 16 + 21 + 72 + 10; // parameter number octet of the product section
    msg[pos] = 255;
    let m = Message::parse(&msg, 0).unwrap();
    assert_eq!(m.parameter(), Err(GribError::UnknownParameter));
    assert_eq!(m.variable_name(), Err(GribError::UnknownParameter));
}

#[test]
fn batch_accessors_mark_failures_absent() {
    let mut buf = simple_message();
    // Second message with an unknown parameter number.
    let mut second = simple_message();
    let pos = 16 + 21 + 72 + 10;
    second[pos] = 255;
    buf.extend(&second);
    let messages = Message::parse_all(&buf);
    assert_eq!(messages.len(), 2);
    let names = Message::variable_names(Message::parse_all(&buf));
    assert_eq!(names, vec![Some("Temperature".to_string()), None]);
    let abbrevs = Message::variable_abbrevs(Message::parse_all(&buf));
    assert_eq!(abbrevs, vec![Some("TMP".to_string()), None]);
    let units = Message::units(Message::parse_all(&buf));
    assert_eq!(units, vec![Some("K".to_string()), None]);
    let dates = Message::forecast_dates(Message::parse_all(&buf));
    assert_eq!(dates.len(), 2);
    assert!(dates[0].is_some());
    assert!(dates[1].is_some());
    let params = Message::parameters(messages);
    assert!(params[0].is_some());
    assert!(params[1].is_none());
}

#[test]
fn descending_latitude_grid() {
    let date = GribDate { year: 2020, month: 1, day: 1, hour: 0, minute: 0, second: 0 };
    let mut body = identification(&date);
    // Latitude descends from 50 to 49 degrees; longitude ascends.
    body.extend(grid_section(4, 2, 2, 50_000_000, 0, 49_000_000, 1_000_000, 1_000_000, 1_000_000, 0));
    body.extend(product_section(0, 0, 1, 6));
    body.extend(drs_section(4, 0.0, 0, 0, 8));
    body.extend(bitmap_none());
    body.extend(data_section(&[1, 2, 3, 4]));
    body.extend(b"7777");
    let total = (16 + body.len()) as u64;
    let mut msg = indicator(0, total);
    msg.extend(body);
    let m = Message::parse(&msg, 0).unwrap();
    let locations = m.data_locations().unwrap();
    assert_eq!(locations[0], (50_000_000, 0));
    assert_eq!(locations[2], (49_000_000, 0));
    for (i, loc) in locations.iter().enumerate() {
        let sv = m.data_at_location(loc).unwrap();
        assert_eq!(sv.raw, (i + 1) as u64);
    }
}

#[test]
fn wrapper_shifts_dates() {
    // The calendar arithmetic really advances the date: an unchanged
    // result would fail both checks.
    let date = GribDate { year: 2019, month: 12, day: 31, hour: 23, minute: 59, second: 30 };
    let mut body = identification(&date);
    body.extend(grid_section(1, 1, 1, 0, 0, 0, 0, 1, 1, 0));
    body.extend(product_section(0, 0, 0, 1)); // 1 minute
    body.extend(drs_section(1, 0.0, 0, 0, 8));
    body.extend(bitmap_none());
    body.extend(data_section(&[0]));
    body.extend(b"7777");
    let total = (16 + body.len()) as u64;
    let mut msg = indicator(0, total);
    msg.extend(body);
    let m = Message::parse(&msg, 0).unwrap();
    let fd = m.forecast_date().unwrap();
    assert_ne!(fd, date);
    assert_eq!(fd, GribDate { year: 2020, month: 1, day: 1, hour: 0, minute: 0, second: 30 });
}

#[test]
fn second_local_use_section_is_rejected() {
    let date = GribDate { year: 2020, month: 1, day: 1, hour: 0, minute: 0, second: 0 };
    let mut body = identification(&date);
    body.extend(local_use(&[1]));
    body.extend(local_use(&[2]));
    body.extend(grid_section(1, 1, 1, 0, 0, 0, 0, 1, 1, 0));
    body.extend(product_section(0, 0, 1, 0));
    body.extend(drs_section(1, 0.0, 0, 0, 8));
    body.extend(bitmap_none());
    body.extend(data_section(&[0]));
    body.extend(b"7777");
    let total = (16 + body.len()) as u64;
    let mut msg = indicator(0, total);
    msg.extend(body);
    assert!(matches!(Message::parse(&msg, 0), Err(GribError::IncompleteMessage)));
}

#[test]
fn zero_bit_width_is_a_constant_field() {
    // With a bit width of zero every point decodes to the reference value.
    let t = SimplePackingTemplate {
        reference_bits: 273.15f32.to_bits(),
        binary_scale: 0,
        decimal_scale: 0,
        bits_per_value: 0,
    };
    let raw = t.unpack_all(&[], 3).unwrap();
    assert_eq!(raw, vec![0, 0, 0]);
    let v = scaled_f64(t.reference_bits, t.binary_scale, t.decimal_scale, raw[0]);
    assert!((v - 273.15).abs() < 1e-4);
}

#[test]
fn parse_all_stops_at_first_corrupt_message() {
    let mut buf = simple_message();
    let first_len = buf.len();
    let mut second = simple_message();
    second[15] += 1; // corrupt the second message's declared total length
    buf.extend(&second);
    let messages = Message::parse_all(&buf);
    assert_eq!(messages.len(), 1);
    assert_eq!(messages[0].len(), first_len);
}
