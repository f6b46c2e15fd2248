use vstd::prelude::*;

use crate::error::PigmentsError;
use crate::sampler::{needs_resize, sample, sample_succeeds, sampled_count, target_size, PixelGrid};

verus! {

/// One dominant color: its channels and the share of the observations it covers,
/// `count` out of `total`.
#[derive(Clone, Copy, Debug, PartialEq, Eq, Structural)]
pub struct Color {
    pub r: u8,
    pub g: u8,
    pub b: u8,
    pub count: u64,
    pub total: u64,
}

/// A cluster centre, each channel already rounded to an integer but not yet clamped.
#[derive(Clone, Copy, Debug, PartialEq, Eq, Structural)]
pub struct Centroid {
    pub r: i64,
    pub g: i64,
    pub b: i64,
}

/// A channel value limited to the range of a byte.
pub open spec fn clamp_spec(v: i64) -> u8 {
    if v < 0 {
        0
    } else if v > 255 {
        255
    } else {
        v as u8
    }
}

/// The percentage `100 * count / total`, in tenths of a percent, rounded half up.
/// A color with no observations at all covers nothing.
pub open spec fn percentage_tenths_spec(count: nat, total: nat) -> nat {
    if total == 0 {
        0
    } else {
        (2000 * count + total) / (2 * total)
    }
}

/// Clamps a channel value into `0..=255`.
pub fn clamp_channel(v: i64) -> (r: u8)
    ensures
        r == clamp_spec(v),
{
    if v < 0 {
        0
    } else if v > 255 {
        255
    } else {
        v as u8
    }
}

impl Color {
    pub fn new(r: u8, g: u8, b: u8, count: u64, total: u64) -> (c: Color)
        ensures
            c == (Color { r, g, b, count, total }),
    {
        Color { r, g, b, count, total }
    }

    /// The share of the observations this color covers, in tenths of a percent,
    /// rounded half up.
    pub fn percentage_tenths(&self) -> (p: u128)
        ensures
            p == percentage_tenths_spec(self.count as nat, self.total as nat),
    {
        if self.total == 0 {
            return 0;
        }
        let c = self.count as u128;
        let t = self.total as u128;
        (2000 * c + t) / (2 * t)
    }

    /// The `#RRGGBB` code of the color.
    pub fn to_hex(&self) -> (s: String)
        ensures
            s@ == crate::text::hex_code(self.r, self.g, self.b),
    {
        crate::text::hex_string(self.r, self.g, self.b)
    }
}

/// How many labels of `s` equal `j`.
pub open spec fn count_label(s: Seq<usize>, j: int) -> nat
    decreases s.len(),
{
    if s.len() == 0 {
        0
    } else {
        count_label(s.drop_last(), j) + if s.last() == j {
            1nat
        } else {
            0nat
        }
    }
}

/// The outcome of clustering can be summarised: there is one centroid per requested
/// color, at least one observation, and every label names one of the centroids.
pub open spec fn clusters_valid(num_colors: nat, centroids: Seq<Centroid>, labels: Seq<usize>) -> bool {
    &&& num_colors >= 1
    &&& centroids.len() == num_colors
    &&& labels.len() > 0
    &&& forall|i: int| 0 <= i < labels.len() ==> labels[i] < num_colors
}

/// The color reported for a centroid covering `count` of `total` observations.
pub open spec fn color_of(c: Centroid, count: nat, total: nat) -> Color {
    Color {
        r: clamp_spec(c.r),
        g: clamp_spec(c.g),
        b: clamp_spec(c.b),
        count: count as u64,
        total: total as u64,
    }
}

/// The colors reported for a clustering: centroid `j` clamped, with the number of
/// labels equal to `j` out of all labels.
pub open spec fn cluster_colors(centroids: Seq<Centroid>, labels: Seq<usize>) -> Seq<Color> {
    Seq::new(
        centroids.len(),
        |j: int| color_of(centroids[j], count_label(labels, j), labels.len()),
    )
}

/// The sum of the member counts of a sequence of colors.
pub open spec fn sum_counts(s: Seq<Color>) -> int
    decreases s.len(),
{
    if s.len() == 0 {
        0
    } else {
        sum_counts(s.drop_last()) + s.last().count
    }
}

proof fn lemma_count_label_le(s: Seq<usize>, j: int)
    ensures
        count_label(s, j) <= s.len(),
    decreases s.len(),
{
    if s.len() > 0 {
        lemma_count_label_le(s.drop_last(), j);
    }
}

fn count_labels(num_colors: usize, labels: &Vec<usize>) -> (counts: Vec<usize>)
    requires
        forall|i: int| 0 <= i < labels@.len() ==> labels@[i] < num_colors,
    ensures
        counts@.len() == num_colors,
        forall|j: int| 0 <= j < num_colors ==> counts@[j] == count_label(labels@, j),
{
    let mut counts: Vec<usize> = Vec::new();
    let mut j: usize = 0;
    while j < num_colors
        invariant
            j <= num_colors,
            counts@.len() == j,
            forall|x: int| 0 <= x < j ==> counts@[x] == 0,
        decreases num_colors - j,
    {
        counts.push(0);
        j = j + 1;
    }
    let mut i: usize = 0;
    while i < labels.len()
        invariant
            i <= labels@.len(),
            counts@.len() == num_colors,
            forall|x: int| 0 <= x < labels@.len() ==> labels@[x] < num_colors,
            forall|x: int| 0 <= x < num_colors ==> counts@[x] == count_label(labels@.take(i as int), x),
        decreases labels@.len() - i,
    {
        let l = labels[i];
        proof {
            assert(labels@.take(i as int + 1).drop_last() =~= labels@.take(i as int));
            lemma_count_label_le(labels@.take(i as int), l as int);
        }
        counts.set(l, counts[l] + 1);
        i = i + 1;
    }
    assert(labels@.take(labels@.len() as int) =~= labels@);
    counts
}

/// Turns the outcome of clustering into the reported colors: one per centroid, in the
/// centroids' order, each channel clamped into `0..=255`, with the number of
/// observations labelled with it out of all observations. Fails with
/// `ColorExtractionError` when the outcome is not `clusters_valid`.
pub fn colors_from_clusters(num_colors: usize, centroids: &Vec<Centroid>, labels: &Vec<usize>) -> (r:
    Result<Vec<Color>, PigmentsError>)
    ensures
        r is Ok <==> clusters_valid(num_colors as nat, centroids@, labels@),
        r matches Ok(v) ==> v@ == cluster_colors(centroids@, labels@),
        r matches Ok(v) ==> v@.len() == num_colors && sum_counts(v@) == labels@.len(),
        r matches Err(e) ==> e is ColorExtractionError,
{
    if num_colors == 0 || centroids.len() != num_colors || labels.len() == 0 {
        return Err(
            PigmentsError::ColorExtractionError(
                String::from_str("clustering returned no usable clusters"),
            ),
        );
    }
    let mut k: usize = 0;
    while k < labels.len()
        invariant
            k <= labels@.len(),
            forall|x: int| 0 <= x < k ==> labels@[x] < num_colors,
        decreases labels@.len() - k,
    {
        if labels[k] >= num_colors {
            return Err(
                PigmentsError::ColorExtractionError(
                    String::from_str("clustering labelled an observation with an unknown cluster"),
                ),
            );
        }
        k = k + 1;
    }
    let counts = count_labels(num_colors, labels);
    let total = labels.len() as u64;
    let mut colors: Vec<Color> = Vec::new();
    let mut j: usize = 0;
    while j < num_colors
        invariant
            j <= num_colors,
            centroids@.len() == num_colors,
            counts@.len() == num_colors,
            total == labels@.len(),
            forall|x: int| 0 <= x < num_colors ==> counts@[x] == count_label(labels@, x),
            colors@ == cluster_colors(centroids@, labels@).take(j as int),
        decreases num_colors - j,
    {
        let c = &centroids[j];
        let color = Color {
            r: clamp_channel(c.r),
            g: clamp_channel(c.g),
            b: clamp_channel(c.b),
            count: counts[j] as u64,
            total,
        };
        colors.push(color);
        j = j + 1;
        assert(colors@ =~= cluster_colors(centroids@, labels@).take(j as int));
    }
    assert(colors@ =~= cluster_colors(centroids@, labels@));
    proof {
        lemma_count_invariant(num_colors as nat, centroids@, labels@);
    }
    Ok(colors)
}

/// The bound on the larger image side used when none is given.
pub const DEFAULT_MAX_DIMENSION: u32 = 500;

/// Extracts the dominant colors of one image. Images larger than `max_dimension` in
/// either direction are resampled down before their pixels are clustered.
pub struct ColorExtractor {
    pub image: PixelGrid,
    pub max_dimension: u32,
}

impl ColorExtractor {
    pub open spec fn wf(&self) -> bool {
        self.image.wf()
    }

    pub fn new(image: PixelGrid) -> (r: ColorExtractor)
        requires
            image.wf(),
        ensures
            r.wf(),
            r.image == image,
            r.max_dimension == DEFAULT_MAX_DIMENSION,
    {
        ColorExtractor { image, max_dimension: DEFAULT_MAX_DIMENSION }
    }

    pub fn with_max_dimension(image: PixelGrid, max_dimension: u32) -> (r: ColorExtractor)
        requires
            image.wf(),
        ensures
            r.wf(),
            r.image == image,
            r.max_dimension == max_dimension,
    {
        ColorExtractor { image, max_dimension }
    }

    /// Checks the requested number of colors and samples the observations to cluster
    /// (see `sample`). Zero colors, or more colors than observations, fail with
    /// `InvalidColorCount`; otherwise a failure of `sample` is handed on.
    pub fn prepare_observations(&self, num_colors: usize) -> (r: Result<PixelGrid, PigmentsError>)
        requires
            self.wf(),
        ensures
            r is Ok <==> num_colors >= 1 && sample_succeeds(
                self.image.width,
                self.image.height,
                self.max_dimension,
            ) && num_colors <= sampled_count(self.image.width, self.image.height, self.max_dimension),
            r matches Err(e) ==> (e is InvalidColorCount <==> (num_colors == 0 || (sample_succeeds(
                self.image.width,
                self.image.height,
                self.max_dimension,
            ) && num_colors > sampled_count(
                self.image.width,
                self.image.height,
                self.max_dimension,
            )))),
            r matches Err(e) ==> (e is EmptyInput <==> (num_colors >= 1 && sampled_count(
                self.image.width,
                self.image.height,
                self.max_dimension,
            ) == 0)),
            r matches Err(e) ==> (e is InvalidColorCount || e is EmptyInput || e is ImageProcessError),
            r matches Ok(g) ==> {
                &&& g.wf()
                &&& (g.width as nat, g.height as nat) == target_size(
                    self.image.width,
                    self.image.height,
                    self.max_dimension,
                )
                &&& g.pixel_count() == sampled_count(
                    self.image.width,
                    self.image.height,
                    self.max_dimension,
                )
                &&& !needs_resize(
                    self.image.width,
                    self.image.height,
                    self.max_dimension,
                ) ==> g.data@ == self.image.data@
            },
    {
        if num_colors < 1 {
            return Err(
                PigmentsError::InvalidColorCount(
                    String::from_str("Number of colors must be at least 1"),
                ),
            );
        }
        let grid = match sample(&self.image, self.max_dimension) {
            Ok(g) => g,
            Err(e) => {
                return Err(e);
            },
        };
        let n = grid.num_pixels();
        if num_colors as u64 > n {
            return Err(
                PigmentsError::InvalidColorCount(
                    String::from_str("Number of colors exceeds the number of pixels"),
                ),
            );
        }
        Ok(grid)
    }
}

/// How many labels of `s` name one of the clusters `0..n`.
pub open spec fn label_total(s: Seq<usize>, n: nat) -> nat
    decreases n,
{
    if n == 0 {
        0
    } else {
        label_total(s, (n - 1) as nat) + count_label(s, n - 1)
    }
}

proof fn lemma_label_total_push(s: Seq<usize>, x: usize, n: nat)
    ensures
        label_total(s.push(x), n) == label_total(s, n) + if x < n {
            1nat
        } else {
            0nat
        },
    decreases n,
{
    assert(s.push(x).drop_last() =~= s);
    if n > 0 {
        lemma_label_total_push(s, x, (n - 1) as nat);
    }
}

proof fn lemma_label_total_all(s: Seq<usize>, n: nat)
    requires
        forall|i: int| 0 <= i < s.len() ==> s[i] < n,
    ensures
        label_total(s, n) == s.len(),
    decreases s.len(),
{
    if s.len() == 0 {
        lemma_label_total_empty(s, n);
    } else {
        let t = s.drop_last();
        assert(t.push(s.last()) =~= s);
        lemma_label_total_all(t, n);
        lemma_label_total_push(t, s.last(), n);
    }
}

proof fn lemma_label_total_empty(s: Seq<usize>, n: nat)
    requires
        s.len() == 0,
    ensures
        label_total(s, n) == 0,
    decreases n,
{
    if n > 0 {
        lemma_label_total_empty(s, (n - 1) as nat);
    }
}

proof fn lemma_sum_counts_prefix(centroids: Seq<Centroid>, labels: Seq<usize>, n: nat)
    requires
        n <= centroids.len(),
        labels.len() <= u64::MAX,
    ensures
        sum_counts(cluster_colors(centroids, labels).take(n as int)) == label_total(labels, n),
    decreases n,
{
    if n > 0 {
        let cs = cluster_colors(centroids, labels);
        assert(cs.take(n as int).drop_last() =~= cs.take(n - 1));
        lemma_sum_counts_prefix(centroids, labels, (n - 1) as nat);
        lemma_count_label_le(labels, n - 1);
    }
}

/// Every observation is counted exactly once: a valid clustering into `num_colors`
/// clusters is reported as exactly `num_colors` colors whose member counts add up to
/// the number of observations.
pub proof fn lemma_count_invariant(num_colors: nat, centroids: Seq<Centroid>, labels: Seq<usize>)
    requires
        clusters_valid(num_colors, centroids, labels),
        labels.len() <= usize::MAX,
    ensures
        cluster_colors(centroids, labels).len() == num_colors,
        sum_counts(cluster_colors(centroids, labels)) == labels.len(),
{
    let cs = cluster_colors(centroids, labels);
    assert(cs.take(num_colors as int) =~= cs);
    lemma_sum_counts_prefix(centroids, labels, num_colors);
    lemma_label_total_all(labels, num_colors);
}

/// The reported percentages add up to exactly one hundred: every color shares the same
/// positive total, and one hundred times the sum of the counts is one hundred times
/// that total.
pub proof fn lemma_percentages_sum_to_hundred(
    num_colors: nat,
    centroids: Seq<Centroid>,
    labels: Seq<usize>,
)
    requires
        clusters_valid(num_colors, centroids, labels),
        labels.len() <= usize::MAX,
    ensures
        forall|j: int|
            0 <= j < num_colors ==> #[trigger] cluster_colors(centroids, labels)[j].total
                == labels.len() > 0,
        100 * sum_counts(cluster_colors(centroids, labels)) == 100 * labels.len(),
{
    lemma_count_invariant(num_colors, centroids, labels);
}

} // verus!
