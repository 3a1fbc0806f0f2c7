//! End-to-end generation tests: determinism, the size cap, and the
//! reproducibility of the draws from the key's digest, exercised over the
//! real image assets.

use labitbu::compose::{plan_generation, GenPlan};
use labitbu::encode::{encode_to_webp_deterministic, finish_artifact};
use labitbu::raster::{decode_raster, resize_raster, Raster, Rgb};
use labitbu::Error;

use rand::rngs::SmallRng;
use rand::{RngCore, SeedableRng};

use bitcoin::hashes::{sha256, HashEngine};


fn base_image_hex() -> String {
    let parts: Vec<&str> = vec![
        "524946465607000057454250565038580a000000200000002c00003a000049434350c8010000000001c8000000",
        "00043000006d6e74725247422058595a2007e00001000100000000000061637370000000000000000000000000",
        "000000000000000000000000000000010000f6d6000100000000d32d0000000000000000000000000000000000",
        "000000000000000000000000000000000000000000000000000000000000000000000964657363000000f00000",
        "00247258595a00000114000000146758595a00000128000000146258595a0000013c0000001477747074000001",
        "500000001472545243000001640000002867545243000001640000002862545243000001640000002863707274",
        "0000018c0000003c6d6c756300000000000000010000000c656e5553000000080000001c007300520047004258",
        "595a200000000000006fa2000038f50000039058595a2000000000000062990000b785000018da58595a200000",
        "0000000024a000000f840000b6cf58595a20000000000000f6d6000100000000d32d7061726100000000000400",
        "00000266660000f2a700000d59000013d000000a5b00000000000000006d6c756300000000000000010000000c",
        "656e5553000000200000001c0047006f006f0067006c006500200049006e0063002e0020003200300031003656",
        "50382068050000901c009d012a2d003b003e311888432221a1140d55c4200304b48009c61f877fb01eb3f864ef",
        "f7ab3fb73fd579e77337f72fc33f0b3f3efc57fe1ffe87fc5f3b3dc03d52ff38fc47fdcbff2dc7b58bffa7fe52",
        "ff74fdaae903d903dc7ffabfe587be3fd43fa6f8b0fc9fd057f9bff5dfc89feabf0d5fb17e26ff70ffbbf06fe6",
        "4ff29f90bfd27ec27f97ff2bfec7fd7ff6b3fa6ffe1fa55f5c9fae9ec29fa70c79214e4fea972b75b2c6d174f6",
        "e7ce797fdcbfdad035df3575f97570c8ee8df3cec86df20ecfb2990abc150cafc750b76e3393b6c5ce318be11b",
        "62f48b813ed01be4a7ae69d20aa56b51e1a8c000fefffe945c7c2ee7529ed74bb287057c52cfa87d4cca8037e6",
        "abfee1e81c3ffa06d386a1fcba55ea0adc46bb0b422730c7fd7f753c30d4c1fc2452cca3e87bd3a5e0db73528e",
        "e781110ede637637c6f77c6efb0f0ffffbf198c620459d96f643f0742ffecb9f0e9b8474fb3fad96b183f43b6f",
        "c83ff87b343c66ed84f47f8f7829d51dbb7e23be26465e43836d025e2a901ceebe76c0473a5ee799177791f950",
        "5b49383e20754dafe96d4f15ff7d6f61e8a9122ae7bed3d562b46911ddb69d275a06b7f191aeb4989d9f87ad1f",
        "db76d1ca66c25fd068634cc29a52929231c1737715cfda4a0e052167481335d81eecd5d119ed6dc00f9483defa",
        "505e90d3e4c3eced58c855fd97f727b1190e1ded4d44acdbca707c5122ec1d16d96d9711b9454a0dbbae1552aa",
        "5e8ff3c7fc5d8e59972290664f804636fc61c8dd4a3b54ac91806bc655be63226a854d40d1aaa5e01f20e4efe1",
        "fff57eb1797c4280204974fba1baa21054d816248365e7fe195db3b757dd620dc8215b23365908787fff2c1de3",
        "d5f32915907ce9ffc54364203463e2c7a3077739ccac427e5116ff19d569243702abc0250c21675f93d2135a0a",
        "fc239a0b9082f2c421f2e60eab9ceb1d2a0e59c77b15a3f4d236d8a394f2fc1c269762bf00a5b3b02d7a243493",
        "074954b7a27cdf0eeebb26a2d2cde957ffe3f5487ba6a9a1218fffc210091ea190bab16a4ea397508c84d770cd",
        "7d4136fc4d0898f6373820b3a84aae43993cf477dae1de0685a85e5754161664eaa601bec9882980d26056c5f9",
        "0b6b6c3952855a74dd4e9511b4c2dc797d254437224d9eaeddb4ad75bdc6c452eac2f8da56a95b961233c0c59f",
        "01317a9dc9956f50f04f330a908a81f8ef51339bd41ca884e6284fd78727b98755e762fcd17f34c4b65b63d17f",
        "63724379113a87ffcd13f08cebd14a285fda254808bd77c7fbad5d21a6db0453b1bf4740ff1bdb88606caf65ff",
        "0f2b3d473fb75ce6e1fd8751cfa65b132963287f3ccbf581382f0d457c649ba96038a934ca7f1aed1bea34203a",
        "572a3e6be667a0ba7644acca8d9e7bdd4645d497460acad21e72de589c776c3f02db8a9d9bcb327e5652cb05ee",
        "96e8b8adc5025137c692b8eb5e96bfc1d81e3ba983a6b0d5a0ad60d09b88126f349563928dac5ca845a2d6b3e9",
        "e641693775a0590c9a7903d9985fd3afc189c1c4257add39e34d58df5cc8a2e41f488f8809dee0d9d809a21c5d",
        "78dfb3edb75ef95a2b56c03faf8442dc38a19bfff6a20152e1785c2bc67f46f00ced2bffd94b76244982e5138a",
        "71ae23a88aa3fe6403d551d2a6567363727152cf72c72d19794fa8e86a86e39b3749292169fe8424fdd9556e62",
        "e94fd3ede44698caf7695a4e508ab5d9c6df6f6d763b4dd9117a84924158f942c355ffc4628bf3849139fb0fff",
        "c794f4c8e3ae3ff3bbf2ac42f873445d0e838c957016afacff41c2e74098b33873a0899e06c22590135e4f38e9",
        "a59ed17fff6c65b94ca178d04ad3ceccebeb8537f19a41f20476573cd0075df403b7b2280caf07a880afb611b8",
        "534499d0482850113df153e4a299df0ada3a9b6e64f92be8eb1b17e5e49ba9c1220e03bf3a91c00000",
    ];
    parts.concat()
}

fn accessory_hex() -> String {
    let parts: Vec<&str> = vec![
        "524946466e04000057454250565038580a000000300000002c00003a000049434350c8010000000001c8000000",
        "00043000006d6e74725247422058595a2007e00001000100000000000061637370000000000000000000000000",
        "000000000000000000000000000000010000f6d6000100000000d32d0000000000000000000000000000000000",
        "000000000000000000000000000000000000000000000000000000000000000000000964657363000000f00000",
        "00247258595a00000114000000146758595a00000128000000146258595a0000013c0000001477747074000001",
        "500000001472545243000001640000002867545243000001640000002862545243000001640000002863707274",
        "0000018c0000003c6d6c756300000000000000010000000c656e5553000000080000001c007300520047004258",
        "595a200000000000006fa2000038f50000039058595a2000000000000062990000b785000018da58595a200000",
        "0000000024a000000f840000b6cf58595a20000000000000f6d6000100000000d32d7061726100000000000400",
        "00000266660000f2a700000d59000013d000000a5b00000000000000006d6c756300000000000000010000000c",
        "656e5553000000200000001c0047006f006f0067006c006500200049006e0063002e0020003200300031003641",
        "4c50484a000000010f30ff1111c26d6cdb4ab5f19012e88294d628cd1aa1027777fd1247f47f02f8d1b6b0236d",
        "1cc9040221dc199bc9cfe8a7699a88a769b2707698a6c9b84d8771a7b6260d6cade7af04565038202e020000f0",
        "0e009d012a2d003b003e31168842a22121180c04ac200304b100698b5262406d80f301fa8dfaddd803d003f667",
        "ac03d003f557d277f677e067f70bd803f5daeee6a015b13d46bf55ff81e513e5eff41ee07fa85fe63ac07a007e",
        "b3226285bfaa75080afaabfc896ba0d910168a977ba95e7f6166f75e23e3eeed753782400000feff0d6617f271",
        "ad56f0d475130c7392e57b0c62bb3c30879b682476eaf9e43cf31ede60e0bd5671f366712265c5ce08dd6b1e64",
        "2ffe867e452aaa240ef7b2a2c56bcdff7fc6d1b387dc5ab971d5e69a2b93aa8f640c4ef2122cda5e84930bad6d",
        "303335f8eef9e6ac449c6fcc565de3133a11ce5536f6ee0637c5c24f31034ef7c837fbf6942a7fe0bef7510a46",
        "ab91058a3d9b38d45842a9c58547de31268dc616bcc86992947f6df3752eabbc5eb3073fe5c758f8804e483165",
        "1d49b765e1dd1ae31ff478e5528d78d7a6e97f4f105c9dde470c3e846465ae5eec0094eff035f6d727a51b20f1",
        "b432742aa6faaa213b75bebdcf62769b4d24017e5dd9d4f88f0827e50b3dbde32dd84adcf1d0304c3fcfee7206",
        "38527f01d9165c466de91594d3aad09af31438e11d9dd1d6fac37f311d027001a50d6ff00332fcbf4bdc8d17cd",
        "a4f31d9b2d535a6ce6e3683ac70fff2bff055fa7ca889da3e78b6018cd2550b89c68facadebf3e06b9b480f29b",
        "682714e245fdfe82f6e5137abc5cdc586c67847ec009e34ade4653ac5e64b8a53c6629105d018cd876ed5a3a49",
        "33f131fc8227c4023da85e684c67800000",
    ];
    parts.concat()
}

fn base_images() -> Vec<Vec<u8>> {
    vec![hex::decode(base_image_hex()).unwrap()]
}

fn accessories() -> Vec<Vec<u8>> {
    vec![hex::decode(accessory_hex()).unwrap()]
}

const KEY_HEX: &str = "79be667ef9dcbbac55a06295ce870b07029bfcdb2dce28d959f2815b16f81798";

fn sha256_digest(parts: &[&[u8]]) -> [u8; 32] {
    let mut eng = sha256::HashEngine::default();
    for p in parts {
        eng.input(p);
    }
    let h = <sha256::Hash as bitcoin::hashes::Hash>::from_engine(eng);
    <sha256::Hash as bitcoin::hashes::Hash>::to_byte_array(h)
}

// The floating-point colour math of the unverified shell, repeated here so
// the tests can drive the full pipeline through the library's public
// functions.
fn rgb_to_hsl(r: f32, g: f32, b: f32) -> (f32, f32, f32) {
    let max = r.max(g.max(b));
    let min = r.min(g.min(b));
    let diff = max - min;
    let l = (max + min) / 2.0;
    if diff == 0.0 {
        return (0.0, 0.0, l);
    }
    let s = if l > 0.5 { diff / (2.0 - max - min) } else { diff / (max + min) };
    let h = if max == r {
        60.0 * (((g - b) / diff) % 6.0)
    } else if max == g {
        60.0 * (((b - r) / diff) + 2.0)
    } else {
        60.0 * (((r - g) / diff) + 4.0)
    };
    let h = if h < 0.0 { h + 360.0 } else { h };
    (h, s, l)
}

fn hsl_to_rgb(h: f32, s: f32, l: f32) -> (f32, f32, f32) {
    if s == 0.0 {
        return (l, l, l);
    }
    let c = (1.0 - (2.0 * l - 1.0).abs()) * s;
    let x = c * (1.0 - ((h / 60.0) % 2.0 - 1.0).abs());
    let m = l - c / 2.0;
    let (rp, gp, bp) = if h < 60.0 {
        (c, x, 0.0)
    } else if h < 120.0 {
        (x, c, 0.0)
    } else if h < 180.0 {
        (0.0, c, x)
    } else if h < 240.0 {
        (0.0, x, c)
    } else if h < 300.0 {
        (x, 0.0, c)
    } else {
        (c, 0.0, x)
    };
    (rp + m, gp + m, bp + m)
}

fn hue_shifted_colors(img: &Raster, hue_shift: f32) -> Vec<Rgb> {
    img.pixels
        .iter()
        .map(|p| {
            let (h, s, l) =
                rgb_to_hsl(p.r as f32 / 255.0, p.g as f32 / 255.0, p.b as f32 / 255.0);
            let new_h = (hue_shift + h) % 360.0;
            let new_s = s.max(0.40);
            let (nr, ng, nb) = hsl_to_rgb(new_h, new_s, l);
            Rgb { r: (nr * 255.0) as u8, g: (ng * 255.0) as u8, b: (nb * 255.0) as u8 }
        })
        .collect()
}

fn blended_colors(base: &Raster, acc: &Raster) -> Vec<Rgb> {
    let bw = base.width as usize;
    let aw = acc.width as usize;
    acc.pixels
        .iter()
        .enumerate()
        .map(|(j, ap)| {
            let (y, x) = if aw > 0 { (j / aw, j % aw) } else { (0, 0) };
            let bi = y * bw + x;
            if x < bw && bi < base.pixels.len() && ap.a > 0 {
                let bp = &base.pixels[bi];
                let alpha = ap.a as f32 / 255.0;
                let inv_alpha = 1.0 - alpha;
                Rgb {
                    r: ((bp.r as f32 * inv_alpha) + (ap.r as f32 * alpha)) as u8,
                    g: ((bp.g as f32 * inv_alpha) + (ap.g as f32 * alpha)) as u8,
                    b: ((bp.b as f32 * inv_alpha) + (ap.b as f32 * alpha)) as u8,
                }
            } else {
                Rgb { r: ap.r, g: ap.g, b: ap.b }
            }
        })
        .collect()
}

fn generate(pubkey_hex: &str, bases: &[Vec<u8>], accs: &[Vec<u8>]) -> Result<Vec<u8>, Error> {
    let plan: GenPlan = plan_generation(pubkey_hex, bases.len(), accs.len())?;
    let mut base = decode_raster(&bases[plan.base_idx])?;
    let shifted = hue_shifted_colors(&base, plan.hue_shift as f32);
    base.apply_hue_shift(&shifted);
    if let Some(acc_idx) = plan.accessory_idx {
        let accessory = decode_raster(&accs[acc_idx])?;
        let accessory = resize_raster(&accessory, base.width, base.height);
        let blended = blended_colors(&base, &accessory);
        base.composite_over(&accessory, &blended);
    }
    finish_artifact(&base)
}

#[test]
fn generation_is_deterministic() {
    let bases = base_images();
    let accs = accessories();
    let first = generate(KEY_HEX, &bases, &accs).unwrap();
    let second = generate(KEY_HEX, &bases, &accs).unwrap();
    assert_eq!(first, second);
}

#[test]
fn artifacts_stay_under_cap_for_many_keys() {
    let bases = base_images();
    let accs = accessories();
    let mut rng = SmallRng::seed_from_u64(0);
    for _ in 0..12 {
        let pubkey_hex = loop {
            let mut bytes = [0u8; 32];
            rng.fill_bytes(&mut bytes);
            if bitcoin::XOnlyPublicKey::from_slice(&bytes).is_ok() {
                break hex::encode(bytes);
            }
        };
        let artifact = generate(&pubkey_hex, &bases, &accs)
            .unwrap_or_else(|e| panic!("cap exceeded for key {}: {:?}", pubkey_hex, e));
        assert_eq!(artifact.len(), 4096);
    }
}

#[test]
fn plan_draws_follow_sha256_of_the_key() {
    let plan = plan_generation(KEY_HEX, 3, 2).unwrap();

    let key_bytes = hex::decode(KEY_HEX).unwrap();
    let digest = sha256_digest(&[&key_bytes]);
    let seed = u64::from_le_bytes(digest[..8].try_into().unwrap());
    let mut rng = SmallRng::seed_from_u64(seed);

    let base_idx = (rng.next_u32() as usize) % 3;
    let roll = (rng.next_u32() as usize) % 3;
    let accessory_idx = if roll < 2 { Some(roll) } else { None };
    let hue = rng.next_u32() % 360;

    assert_eq!(plan.base_idx, base_idx);
    assert_eq!(plan.accessory_idx, accessory_idx);
    assert_eq!(plan.hue_shift, hue);
}

#[test]
fn end_to_end_single_base_no_accessories() {
    let bases = base_images();
    let artifact = generate(KEY_HEX, &bases, &[]).unwrap();
    assert_eq!(artifact.len(), 4096);

    // The encoded picture inside the buffer is strictly under the cap and
    // decodes back to the base picture's dimensions.
    let reference = image::load_from_memory(&bases[0]).unwrap().to_rgba8();
    let decoded = image::load_from_memory(&artifact).unwrap().to_rgba8();
    assert_eq!(decoded.dimensions(), reference.dimensions());

    // The hue shift that went into the artifact is the one sha256(K) seeds.
    let key_bytes = hex::decode(KEY_HEX).unwrap();
    let digest = sha256_digest(&[&key_bytes]);
    let seed = u64::from_le_bytes(digest[..8].try_into().unwrap());
    let mut rng = SmallRng::seed_from_u64(seed);
    let _base_draw = rng.next_u32();
    let expected_hue = rng.next_u32() % 360;
    let plan = plan_generation(KEY_HEX, 1, 0).unwrap();
    assert_eq!(plan.base_idx, 0);
    assert_eq!(plan.accessory_idx, None);
    assert_eq!(plan.hue_shift, expected_hue);
}

#[test]
fn artifact_ignores_payload_entirely() {
    // The generation path takes no payload at all: two runs bracketing
    // unrelated commitment work agree byte for byte.
    let bases = base_images();
    let first = generate(KEY_HEX, &bases, &[]).unwrap();
    let _ = labitbu::commit::create_taproot_spend_info(
        bitcoin::XOnlyPublicKey::from_slice(&hex::decode(KEY_HEX).unwrap()).unwrap(),
        vec![7u8; 100],
    )
    .unwrap();
    let second = generate(KEY_HEX, &bases, &[]).unwrap();
    assert_eq!(first, second);
}

#[test]
fn empty_base_set_is_refused() {
    assert_eq!(plan_generation(KEY_HEX, 0, 0), Err(Error::NoBaseImages));
}

#[test]
fn malformed_key_hex_is_refused() {
    assert_eq!(plan_generation("zz", 1, 0), Err(Error::InvalidKeyEncoding));
    assert_eq!(
        plan_generation(&KEY_HEX[..62], 1, 0),
        Err(Error::InvalidKeyEncoding)
    );
}

#[test]
fn malformed_image_bytes_are_refused() {
    match decode_raster(&[0u8, 1, 2, 3]) {
        Err(e) => assert_eq!(e, Error::AssetDecodeFailure),
        Ok(_) => panic!("bytes that are no image must not decode"),
    }
}

#[test]
fn oversized_raster_is_rejected_as_too_large() {
    // A raster of a single huge row exceeds the encoder's dimension range.
    let raw = vec![255u8; 4 * 20000];
    let img = labitbu::raster::Raster::from_rgba_raw(20000, 1, &raw);
    assert_eq!(finish_artifact(&img), Err(Error::ArtifactTooLarge));
}

#[test]
fn encoder_matches_the_webp_library() {
    // Mixed alpha: full RGBA mode.
    let raw: Vec<u8> = vec![
        10, 20, 30, 255, 40, 50, 60, 128, //
        70, 80, 90, 0, 100, 110, 120, 255,
    ];
    let img = Raster::from_rgba_raw(2, 2, &raw);
    let ours = encode_to_webp_deterministic(&img).unwrap();
    let mut theirs = Vec::new();
    let mut enc = image_webp::WebPEncoder::new(&mut theirs);
    let mut params = image_webp::EncoderParams::default();
    params.use_predictor_transform = false;
    enc.set_params(params);
    enc.encode(&raw, 2, 2, image_webp::ColorType::Rgba8).unwrap();
    assert_eq!(ours, theirs);

    // All opaque: channel-reduced RGB mode.
    let raw2: Vec<u8> = vec![
        10, 20, 30, 255, 40, 50, 60, 255, //
        70, 80, 90, 255, 100, 110, 120, 255,
    ];
    let img2 = Raster::from_rgba_raw(2, 2, &raw2);
    let ours2 = encode_to_webp_deterministic(&img2).unwrap();
    let rgb: Vec<u8> = vec![10, 20, 30, 40, 50, 60, 70, 80, 90, 100, 110, 120];
    let mut theirs2 = Vec::new();
    let mut enc2 = image_webp::WebPEncoder::new(&mut theirs2);
    let mut params2 = image_webp::EncoderParams::default();
    params2.use_predictor_transform = false;
    enc2.set_params(params2);
    enc2.encode(&rgb, 2, 2, image_webp::ColorType::Rgb8).unwrap();
    assert_eq!(ours2, theirs2);
    assert_ne!(ours, ours2);
}

#[test]
fn decoded_base_has_the_expected_shape() {
    let bases = base_images();
    let img = decode_raster(&bases[0]).unwrap();
    let reference = image::load_from_memory(&bases[0]).unwrap().to_rgba8();
    assert_eq!((img.width, img.height), reference.dimensions());
    assert_eq!(img.pixels.len(), (img.width * img.height) as usize);
    let raw = reference.as_raw();
    for (i, p) in img.pixels.iter().enumerate() {
        assert_eq!(
            [p.r, p.g, p.b, p.a],
            [raw[4 * i], raw[4 * i + 1], raw[4 * i + 2], raw[4 * i + 3]]
        );
    }
}
