use bracket_noise::prelude::FastNoise;
use heightfield::field::FieldError;
use heightfield::field::HeightField;
use rand::rngs::StdRng;
use rand::RngCore;
use rand::SeedableRng;

fn ref_layer(noise: &mut FastNoise, size: (usize, usize), scale: f32, offset: f32, output: &mut Vec<f32>) {
    for y in 0..size.1 {
        for x in 0..size.0 {
            output[x + y * size.0] += noise.get_noise(x as f32, y as f32) * scale + offset;
        }
    }
}

fn ref_generate(w: usize, h: usize, roughness: usize, seed: u64) -> Vec<f32> {
    let mut rng = StdRng::seed_from_u64(seed);
    let mut data = vec![0.0f32; w * h];
    let avg = (w as f32 + h as f32) / 2.0;
    let mut freq = 1.0 / avg;
    let mut scale = 1.0f32;
    let mut noise = FastNoise::seeded(rng.next_u64());
    noise.set_frequency(freq);
    ref_layer(&mut noise, (w, h), 0.5 * scale, 0.5 * scale, &mut data);
    for _ in 0..roughness {
        freq *= 4.0;
        scale /= 6.0;
        noise.set_seed(rng.next_u64());
        noise.set_frequency(freq);
        ref_layer(&mut noise, (w, h), scale, 0.0, &mut data);
    }
    data
}

fn make_field(w: usize, h: usize, min_z: f32, max_z: f32, roughness: usize) -> HeightField {
    HeightField::new(w, h, min_z.to_bits(), max_z.to_bits(), roughness).ok().unwrap()
}

#[test]
fn new_rejects_zero_width() {
    let r = HeightField::new(0, 3, 0.0f32.to_bits(), 1.0f32.to_bits(), 2);
    assert!(matches!(r, Err(FieldError::InvalidConfiguration)));
}

#[test]
fn new_rejects_zero_height() {
    let r = HeightField::new(3, 0, 0.0f32.to_bits(), 1.0f32.to_bits(), 2);
    assert!(matches!(r, Err(FieldError::InvalidConfiguration)));
}

#[test]
fn new_accepts_positive_dimensions() {
    let f = make_field(5, 7, -1.0, 1.0, 4);
    assert_eq!(f.size(), (5, 7));
    assert_eq!(f.iter().len(), 0);
}

#[test]
fn iteration_is_row_major_with_each_cell_once() {
    let mut f = make_field(4, 3, 0.0, 10.0, 2);
    f.generate_seeded(Some(42));
    let cells = f.iter();
    assert_eq!(cells.len(), 12);
    let mut seen = vec![false; 12];
    for (i, &((x, y), _v)) in cells.iter().enumerate() {
        assert_eq!(x, i % 4);
        assert_eq!(y, i / 4);
        assert!(!seen[x + y * 4]);
        seen[x + y * 4] = true;
    }
    for s in seen {
        assert!(s);
    }
}

#[test]
fn generation_is_deterministic_for_a_fixed_seed() {
    let mut a = make_field(4, 3, 0.0, 10.0, 3);
    let mut b = make_field(4, 3, 0.0, 10.0, 3);
    a.generate_seeded(Some(7));
    b.generate_seeded(Some(7));
    assert_eq!(a.iter(), b.iter());
    a.generate_seeded(Some(7));
    assert_eq!(a.iter(), b.iter());
}

#[test]
fn generation_matches_the_plain_pipeline() {
    let mut f = make_field(5, 4, -2.0, 2.0, 3);
    f.generate_seeded(Some(9));
    let expected = ref_generate(5, 4, 3, 9);
    let cells = f.iter();
    assert_eq!(cells.len(), expected.len());
    for (i, &((_x, _y), v)) in cells.iter().enumerate() {
        assert_eq!(v, expected[i].to_bits());
    }
}

#[test]
fn distinct_seeds_give_distinct_fields() {
    let mut a = make_field(2, 2, 0.0, 1.0, 5);
    let mut b = make_field(2, 2, 0.0, 1.0, 5);
    a.generate_seeded(Some(1));
    b.generate_seeded(Some(2));
    assert_ne!(a.iter(), b.iter());
}

#[test]
fn table_example_three_rows_of_four_tokens() {
    let mut f = make_field(4, 3, 0.0, 10.0, 0);
    f.generate_seeded(Some(42));
    let text = f.to_table();
    let rows: Vec<&str> = text.split("\r\n").collect();
    assert_eq!(rows.len(), 3);
    for row in &rows {
        let tokens: Vec<&str> = row.split_whitespace().collect();
        assert_eq!(tokens.len(), 4);
        for t in tokens {
            let v: f32 = t.parse().ok().unwrap();
            assert!((0.0..=10.0).contains(&v));
        }
    }
    let mut g = make_field(4, 3, 0.0, 10.0, 0);
    g.generate_seeded(Some(42));
    assert_eq!(g.to_table(), text);
}

#[test]
fn table_matches_the_plain_rendering() {
    let mut f = make_field(4, 3, 0.0, 10.0, 2);
    f.generate_seeded(Some(11));
    let data = ref_generate(4, 3, 2, 11);
    let width = 10.0f32.log10() as usize + 3;
    let mut expected = String::new();
    for (i, &v) in data.iter().enumerate() {
        let x = i % 4;
        let y = i / 4;
        if x == 0 && y != 0 {
            expected.pop();
            expected.push_str("\r\n");
        }
        let h = v.clamp(0.0, 1.0) * (10.0 - 0.0) + 0.0;
        expected.push_str(&format!("{:width$.1} ", h, width = width));
    }
    assert_eq!(f.to_table(), expected);
}

#[test]
fn rendering_twice_gives_identical_text() {
    let mut f = make_field(3, 3, -5.0, 5.0, 1);
    f.generate_seeded(Some(3));
    let once = f.to_table();
    let twice = f.to_table();
    assert_eq!(once, twice);
}

#[test]
fn ungenerated_field_renders_blank() {
    let f = make_field(4, 3, 0.0, 10.0, 2);
    let text = f.to_table();
    assert!(text.trim().is_empty());
    let pixels = f.to_pixels();
    assert_eq!(pixels.len(), 4 * 3 * 3);
    for p in pixels {
        assert_eq!(p, 0u8);
    }
}

#[test]
fn pixels_match_the_plain_rendering() {
    let mut f = make_field(6, 2, 0.0, 1.0, 2);
    f.generate_seeded(Some(5));
    let data = ref_generate(6, 2, 2, 5);
    let pixels = f.to_pixels();
    assert_eq!(pixels.len(), data.len() * 3);
    for (i, &v) in data.iter().enumerate() {
        let c = (v.clamp(0.0, 1.0) * 255.0) as u8;
        assert_eq!(pixels[3 * i], c);
        assert_eq!(pixels[3 * i + 1], c);
        assert_eq!(pixels[3 * i + 2], c);
    }
}

#[test]
fn normalized_heights_match_the_plain_rescaling() {
    let mut f = make_field(3, 2, 2.0, 8.0, 1);
    f.generate_seeded(Some(13));
    let data = ref_generate(3, 2, 1, 13);
    let heights = f.normalized_heights();
    assert_eq!(heights.len(), data.len());
    for (i, &v) in data.iter().enumerate() {
        let expected = v.clamp(0.0, 1.0) * (8.0f32 - 2.0f32) + 2.0f32;
        assert_eq!(heights[i], expected.to_bits());
    }
}

#[test]
fn data_uri_is_a_decodable_png() {
    let mut f = make_field(4, 3, 0.0, 10.0, 1);
    f.generate_seeded(Some(21));
    let uri = f.to_data_uri().ok().unwrap();
    let prefix = "data:image/png;base64,";
    assert!(uri.starts_with(prefix));
    let bytes = base64::decode(&uri[prefix.len()..]).ok().unwrap();
    assert_eq!(&bytes[0..4], &[0x89u8, 0x50, 0x4E, 0x47]);
    let img = image::load_from_memory(&bytes).ok().unwrap();
    assert_eq!(img.width(), 4);
    assert_eq!(img.height(), 3);
}

#[test]
fn unseeded_generation_fills_the_grid() {
    let mut f = make_field(3, 3, 0.0, 1.0, 1);
    f.generate_seeded(None);
    assert_eq!(f.iter().len(), 9);
}
