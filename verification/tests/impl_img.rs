use image_recovery::img::{Manipulation, RgbRaster};
use image_recovery::matrix::Matrix;

fn random_raster_and_channels(w: usize, h: usize) -> (RgbRaster, [Matrix; 3]) {
    let mut bytes: Vec<u8> = vec![0u8; 3 * w * h];
    let mut red: Vec<u64> = vec![0u64; w * h];
    let mut green: Vec<u64> = vec![0u64; w * h];
    let mut blue: Vec<u64> = vec![0u64; w * h];

    for x in 0..w {
        for y in 0..h {
            let r = rand::random::<u8>();
            let g = rand::random::<u8>();
            let b = rand::random::<u8>();

            let pixel = (y * w + x) * 3;
            bytes[pixel] = r;
            bytes[pixel + 1] = g;
            bytes[pixel + 2] = b;

            let k = x * h + y;
            red[k] = (r as f64).to_bits();
            green[k] = (g as f64).to_bits();
            blue[k] = (b as f64).to_bits();
        }
    }

    let raster = RgbRaster::from_bytes(bytes, w, h).unwrap();
    let channels = [
        Matrix::from_vec(red, w, h).unwrap(),
        Matrix::from_vec(green, w, h).unwrap(),
        Matrix::from_vec(blue, w, h).unwrap(),
    ];
    (raster, channels)
}

#[test]
fn shape_is_correct() {
    let img = RgbRaster::new(32, 32);

    assert_eq!((32, 32), img.shape());
}

#[test]
fn to_matrices_is_correct() {
    let (img, channels) = random_raster_and_channels(32, 32);
    let img_matrices = img.to_matrices();

    assert_eq!(&channels[0], img_matrices.red());
    assert_eq!(&channels[1], img_matrices.green());
    assert_eq!(&channels[2], img_matrices.blue());
}

#[test]
fn from_matrices_is_correct() {
    let (img, channels) = random_raster_and_channels(32, 32);
    let img_matrices =
        image_recovery::bundle::RgbMatrices::from_channels(&channels[0], &channels[1], &channels[2])
            .unwrap();
    let img_test = RgbRaster::from_matrices(&img_matrices);

    assert_eq!(img, img_test);
}
