//! 7x24 peak-hours heatmap: request counts per local weekday and hour for one model.

use vstd::prelude::*;

use crate::text::str_eq;

verus! {

/// Hours per day column.
pub const HOUR_COUNT: usize = 24;

/// One hourly request count of a model, with the local weekday (0 = Monday) and hour of
/// its bucket start.
pub struct PeakHourRow {
    pub model: String,
    pub hour_bucket: i64,
    pub request_count: u64,
    pub day: usize,
    pub hour: usize,
}

/// Whether a row belongs to `model` and falls on weekday `d`, hour `h`.
pub open spec fn row_in_cell(r: PeakHourRow, model: Seq<char>, d: int, h: int) -> bool {
    r.model@ == model && r.day == d && r.hour == h
}

/// Total requests of `model` in weekday `d`, hour `h`.
pub open spec fn cell_total(rows: Seq<PeakHourRow>, model: Seq<char>, d: int, h: int) -> int
    decreases rows.len(),
{
    if rows.len() == 0 {
        0
    } else {
        cell_total(rows.drop_last(), model, d, h) + if row_in_cell(rows.last(), model, d, h) {
            rows.last().request_count as int
        } else {
            0
        }
    }
}

proof fn lemma_cell_total_prefix(rows: Seq<PeakHourRow>, model: Seq<char>, d: int, h: int, i: int)
    requires
        0 <= i <= rows.len(),
    ensures
        0 <= cell_total(rows.take(i), model, d, h) <= cell_total(rows, model, d, h),
    decreases rows.len() - i,
{
    if i < rows.len() {
        lemma_cell_total_prefix(rows, model, d, h, i + 1);
        assert(rows.take(i + 1).drop_last() =~= rows.take(i));
        lemma_cell_total_nonneg(rows.take(i), model, d, h);
    } else {
        assert(rows.take(i) =~= rows);
        lemma_cell_total_nonneg(rows, model, d, h);
    }
}

proof fn lemma_cell_total_nonneg(rows: Seq<PeakHourRow>, model: Seq<char>, d: int, h: int)
    ensures
        cell_total(rows, model, d, h) >= 0,
    decreases rows.len(),
{
    if rows.len() > 0 {
        lemma_cell_total_nonneg(rows.drop_last(), model, d, h);
    }
}

/// The matrix cell `[d][h]` holds the total of `model`'s rows in that weekday and hour.
pub open spec fn is_peak_matrix(m: [[u64; 24]; 7], rows: Seq<PeakHourRow>, model: Seq<char>) -> bool {
    forall|d: int, h: int|
        0 <= d < 7 && 0 <= h < 24 ==> #[trigger] m@[d]@[h] == cell_total(rows, model, d, h)
}

/// Build a 7x24 matrix from peak hour rows for a given model (rows outside the grid
/// are ignored).
pub fn build_matrix(data: &[PeakHourRow], model: &str) -> (m: [[u64; 24]; 7])
    requires
        forall|d: int, h: int|
            0 <= d < 7 && 0 <= h < 24 ==> cell_total(data@, model@, d, h) <= u64::MAX,
    ensures
        is_peak_matrix(m, data@, model@),
{
    let mut matrix = [[0u64; 24]; 7];
    let mut i: usize = 0;
    assert(data@.take(0) =~= Seq::<PeakHourRow>::empty());
    while i < data.len()
        invariant
            i <= data.len(),
            forall|d: int, h: int|
                0 <= d < 7 && 0 <= h < 24 ==> cell_total(data@, model@, d, h) <= u64::MAX,
            forall|d: int, h: int|
                0 <= d < 7 && 0 <= h < 24 ==> #[trigger] matrix@[d]@[h] == cell_total(
                    data@.take(i as int),
                    model@,
                    d,
                    h,
                ),
        decreases data.len() - i,
    {
        let row = &data[i];
        assert(data@.take(i + 1).drop_last() =~= data@.take(i as int));
        assert(data@.take(i + 1).last() == data@[i as int]);
        if str_eq(row.model.as_str(), model) && row.day < 7 && row.hour < HOUR_COUNT {
            let d = row.day;
            let h = row.hour;
            proof {
                lemma_cell_total_prefix(data@, model@, d as int, h as int, i + 1);
            }
            matrix[d][h] = matrix[d][h] + row.request_count;
        }
        i = i + 1;
    }
    assert(data@.take(data.len() as int) =~= data@);
    matrix
}

/// The color-scale maximum: the largest cell of the matrix, but at least 1.
pub fn matrix_max(matrix: &[[u64; 24]; 7]) -> (mx: u64)
    ensures
        mx >= 1,
        forall|d: int, h: int| 0 <= d < 7 && 0 <= h < 24 ==> #[trigger] matrix@[d]@[h] <= mx,
        mx == 1 || exists|d: int, h: int| 0 <= d < 7 && 0 <= h < 24 && #[trigger] matrix@[d]@[h] == mx,
{
    let mut mx: u64 = 1;
    let mut d: usize = 0;
    while d < 7
        invariant
            d <= 7,
            mx >= 1,
            forall|a: int, b: int| 0 <= a < d && 0 <= b < 24 ==> #[trigger] matrix@[a]@[b] <= mx,
            mx == 1 || exists|a: int, b: int| 0 <= a < 7 && 0 <= b < 24 && #[trigger] matrix@[a]@[b] == mx,
        decreases 7 - d,
    {
        let row = matrix[d];
        let mut h: usize = 0;
        while h < 24
            invariant
                d < 7,
                h <= 24,
                mx >= 1,
                row == matrix@[d as int],
                forall|a: int, b: int| 0 <= a < d && 0 <= b < 24 ==> #[trigger] matrix@[a]@[b] <= mx,
                forall|b: int| 0 <= b < h ==> #[trigger] matrix@[d as int]@[b] <= mx,
                mx == 1 || exists|a: int, b: int| 0 <= a < 7 && 0 <= b < 24 && #[trigger] matrix@[a]@[b] == mx,
            decreases 24 - h,
        {
            if row[h] > mx {
                mx = row[h];
                assert(matrix@[d as int]@[h as int] == mx);
            }
            h = h + 1;
        }
        d = d + 1;
    }
    mx
}

/// The bucket starts of `model`'s rows that fall on weekday `target_day`, hour `target_hour`.
pub fn find_bucket_for_cell(
    data: &[PeakHourRow],
    model: &str,
    target_day: usize,
    target_hour: usize,
) -> (buckets: Vec<i64>)
    ensures
        buckets@ == data@.filter(
            |r: PeakHourRow| row_in_cell(r, model@, target_day as int, target_hour as int),
        ).map_values(|r: PeakHourRow| r.hour_bucket),
{
    let mut out: Vec<i64> = Vec::new();
    let mut i: usize = 0;
    assert(data@.take(0) =~= Seq::<PeakHourRow>::empty());
    while i < data.len()
        invariant
            i <= data.len(),
            out@ == data@.take(i as int).filter(
                |r: PeakHourRow| row_in_cell(r, model@, target_day as int, target_hour as int),
            ).map_values(|r: PeakHourRow| r.hour_bucket),
        decreases data.len() - i,
    {
        let row = &data[i];
        proof {
            assert(data@.take(i + 1) =~= data@.take(i as int).push(data@[i as int]));
            data@.take(i as int).lemma_filter_push(
                data@[i as int],
                |r: PeakHourRow| row_in_cell(r, model@, target_day as int, target_hour as int),
            );
        }
        if str_eq(row.model.as_str(), model) && row.day == target_day && row.hour == target_hour {
            out.push(row.hour_bucket);
        }
        i = i + 1;
        assert(out@ =~= data@.take(i as int).filter(
            |r: PeakHourRow| row_in_cell(r, model@, target_day as int, target_hour as int),
        ).map_values(|r: PeakHourRow| r.hour_bucket));
    }
    assert(data@.take(data.len() as int) =~= data@);
    out
}

} // verus!
