use linfa::traits::{Fit, Predict};
use linfa_clustering::KMeans;
use ndarray::Array2;
use pigments::{colors_from_clusters, Centroid, Color, ColorExtractor, PigmentsError, PixelGrid};

fn grid_from(img: &image::RgbImage) -> PixelGrid {
    PixelGrid::from_raw(img.width(), img.height(), img.as_raw().clone()).unwrap()
}

fn two_color_image() -> image::RgbImage {
    let mut img = image::RgbImage::new(100, 100);
    for x in 0..50 {
        for y in 0..100 {
            img.put_pixel(x, y, image::Rgb([255, 0, 0]));
        }
    }
    for x in 50..100 {
        for y in 0..100 {
            img.put_pixel(x, y, image::Rgb([0, 0, 255]));
        }
    }
    img
}

fn cluster(grid: &PixelGrid, k: usize) -> (Vec<Centroid>, Vec<usize>) {
    let n = grid.data.len() / 3;
    let values: Vec<f32> = grid.data.iter().map(|&b| b as f32).collect();
    let observations = Array2::from_shape_vec((n, 3), values).unwrap();
    let dataset = linfa::Dataset::from(observations.clone());
    let model = KMeans::params(k)
        .max_n_iterations(20)
        .tolerance(1e-2)
        .fit(&dataset)
        .unwrap();
    let labels = model.predict(&observations);
    let centroids = model
        .centroids()
        .rows()
        .into_iter()
        .map(|c| Centroid {
            r: c[0].round() as i64,
            g: c[1].round() as i64,
            b: c[2].round() as i64,
        })
        .collect();
    (centroids, labels.to_vec())
}

fn extract(extractor: &ColorExtractor, k: usize) -> Result<Vec<Color>, PigmentsError> {
    let grid = extractor.prepare_observations(k)?;
    let (centroids, labels) = cluster(&grid, k);
    colors_from_clusters(k, &centroids, &labels)
}

fn percentage(c: &Color) -> f32 {
    (c.count as f32 / c.total as f32) * 100.0
}

#[test]
fn test_color_extraction() {
    let extractor = ColorExtractor::new(grid_from(&two_color_image()));
    let colors = extract(&extractor, 2).unwrap();

    assert_eq!(colors.len(), 2);
    assert!((percentage(&colors[0]) - 50.0).abs() < 5.0);
    assert!((percentage(&colors[1]) - 50.0).abs() < 5.0);
}

#[test]
fn two_color_image_gives_red_and_blue() {
    let extractor = ColorExtractor::new(grid_from(&two_color_image()));
    let colors = extract(&extractor, 2).unwrap();
    assert_eq!(colors.len(), 2);
    let near = |c: &Color, r: i32, g: i32, b: i32| {
        (c.r as i32 - r).abs() <= 2 && (c.g as i32 - g).abs() <= 2 && (c.b as i32 - b).abs() <= 2
    };
    assert!(colors.iter().any(|c| near(c, 255, 0, 0)));
    assert!(colors.iter().any(|c| near(c, 0, 0, 255)));
    for c in &colors {
        assert!((percentage(c) - 50.0).abs() < 5.0);
    }
}

#[test]
fn single_color_image_gives_one_full_record() {
    let img = image::RgbImage::from_pixel(10, 10, image::Rgb([10, 20, 30]));
    let extractor = ColorExtractor::new(grid_from(&img));
    let colors = extract(&extractor, 1).unwrap();
    assert_eq!(colors, vec![Color::new(10, 20, 30, 100, 100)]);
    assert_eq!(percentage(&colors[0]), 100.0);
    assert_eq!(colors[0].percentage_tenths(), 1000);
}

#[test]
fn large_image_is_sampled_on_a_smaller_grid() {
    let mut img = image::RgbImage::new(2000, 1000);
    for (x, _, p) in img.enumerate_pixels_mut() {
        *p = if x < 1000 { image::Rgb([200, 10, 10]) } else { image::Rgb([10, 10, 200]) };
    }
    let extractor = ColorExtractor::with_max_dimension(grid_from(&img), 500);
    let grid = extractor.prepare_observations(2).unwrap();
    assert_eq!((grid.width, grid.height), (500, 250));
    assert_eq!(grid.data.len(), 3 * 500 * 250);

    let (centroids, labels) = cluster(&grid, 2);
    let colors = colors_from_clusters(2, &centroids, &labels).unwrap();
    assert_eq!(colors.len(), 2);
    let sum: u64 = colors.iter().map(|c| c.count).sum();
    assert_eq!(sum, 500 * 250);
    assert!(colors.iter().all(|c| c.total == 500 * 250));
    let pct: f32 = colors.iter().map(percentage).sum();
    assert!((pct - 100.0).abs() < 0.1);
}

#[test]
fn small_image_is_sampled_as_it_is() {
    let img = two_color_image();
    let extractor = ColorExtractor::new(grid_from(&img));
    let grid = extractor.prepare_observations(3).unwrap();
    assert_eq!((grid.width, grid.height), (100, 100));
    assert_eq!(&grid.data, img.as_raw());
}

#[test]
fn zero_colors_is_refused() {
    let extractor = ColorExtractor::new(grid_from(&two_color_image()));
    assert!(matches!(
        extractor.prepare_observations(0),
        Err(PigmentsError::InvalidColorCount(_))
    ));
}

#[test]
fn more_colors_than_pixels_is_refused() {
    let img = image::RgbImage::from_pixel(2, 2, image::Rgb([1, 2, 3]));
    let extractor = ColorExtractor::new(grid_from(&img));
    assert!(matches!(
        extractor.prepare_observations(5),
        Err(PigmentsError::InvalidColorCount(_))
    ));
    assert!(extractor.prepare_observations(4).is_ok());
}

#[test]
fn empty_image_is_refused() {
    let extractor = ColorExtractor::new(PixelGrid::from_raw(0, 0, Vec::new()).unwrap());
    assert!(matches!(
        extractor.prepare_observations(1),
        Err(PigmentsError::EmptyInput(_))
    ));
}

#[test]
fn image_that_shrinks_to_nothing_is_refused() {
    let grid = PixelGrid::from_raw(1000, 1, vec![7; 3000]).unwrap();
    let extractor = ColorExtractor::with_max_dimension(grid, 500);
    assert!(matches!(
        extractor.prepare_observations(1),
        Err(PigmentsError::EmptyInput(_))
    ));
}

#[test]
fn same_input_gives_same_colors() {
    let extractor = ColorExtractor::new(grid_from(&two_color_image()));
    let first = extract(&extractor, 2).unwrap();
    let second = extract(&extractor, 2).unwrap();
    assert_eq!(first, second);
}

#[test]
fn error_carries_its_cause() {
    let extractor = ColorExtractor::new(grid_from(&two_color_image()));
    let err = extractor.prepare_observations(0).unwrap_err();
    assert_eq!(err.message(), "Number of colors must be at least 1");
}
