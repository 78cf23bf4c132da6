//! The grid compositor: grid dimensions for a given clip count, the filter
//! graph that scales, pads and tiles every input, and the full argument list
//! of the single external encode pass that renders the composite.

use vstd::prelude::*;

use vstd::arithmetic::div_mod::{
    lemma_fundamental_div_mod, lemma_mod_division_less_than_divisor, lemma_multiply_divide_lt,
};
use vstd::arithmetic::mul::lemma_mul_inequality;

use crate::text::{append_dec, dec_seq};

verus! {

/// The fixed canvas the composite is laid out on.
pub const CANVAS_WIDTH: usize = 1920;

/// See [`CANVAS_WIDTH`].
pub const CANVAS_HEIGHT: usize = 1080;

/// Combines an ordered set of clips into one output file.
#[derive(Debug, Clone)]
pub struct VideoCombiner {
    pub input_files: Vec<String>,
    pub output_file: String,
}

/// `c` is the round-up integer square root of `n`: the least count of
/// columns whose square grid holds `n` cells.
pub open spec fn is_ceil_sqrt(c: nat, n: nat) -> bool {
    &&& 1 <= c
    &&& n <= c * c
    &&& (c - 1) * (c - 1) < n
}

/// At most one column count satisfies [`is_ceil_sqrt`] for a given `n`.
pub proof fn lemma_ceil_sqrt_unique(c1: nat, c2: nat, n: nat)
    requires
        is_ceil_sqrt(c1, n),
        is_ceil_sqrt(c2, n),
    ensures
        c1 == c2,
{
    if c1 < c2 {
        lemma_mul_inequality(c1 as int, c2 as int - 1, c1 as int);
        lemma_mul_inequality(c1 as int, c2 as int - 1, c2 as int - 1);
        vstd::arithmetic::mul::lemma_mul_is_commutative(c2 as int - 1, c1 as int);
    }
    if c2 < c1 {
        lemma_mul_inequality(c2 as int, c1 as int - 1, c2 as int);
        lemma_mul_inequality(c2 as int, c1 as int - 1, c1 as int - 1);
        vstd::arithmetic::mul::lemma_mul_is_commutative(c1 as int - 1, c2 as int);
    }
}

/// The column count of the grid for `n` clips: the table for small counts,
/// the round-up square root beyond it.
pub open spec fn spec_grid_cols(n: nat) -> nat {
    if n <= 1 {
        1
    } else if n == 2 {
        2
    } else if n <= 4 {
        2
    } else if n <= 6 {
        3
    } else if n <= 9 {
        3
    } else if n <= 12 {
        4
    } else {
        choose|c: nat| is_ceil_sqrt(c, n)
    }
}

/// The row count of the grid for `n` clips: the table for small counts,
/// and beyond it the fewest rows that hold `n` cells at
/// [`spec_grid_cols`] columns.
pub open spec fn spec_grid_rows(n: nat) -> nat {
    if n <= 2 {
        1
    } else if n <= 4 {
        2
    } else if n <= 6 {
        2
    } else if n <= 9 {
        3
    } else if n <= 12 {
        3
    } else {
        (((n - 1) / spec_grid_cols(n) as int) + 1) as nat
    }
}

impl VideoCombiner {
    /// A combiner over `input_files`, writing to `output_file`.
    pub fn new(input_files: Vec<String>, output_file: String) -> (r: VideoCombiner)
        ensures
            r.input_files == input_files,
            r.output_file == output_file,
    {
        VideoCombiner { input_files, output_file }
    }

    /// The grid shape `(rows, cols)` for `num_videos` clips. Small counts
    /// take shapes from a table that favors visually balanced grids; larger
    /// counts fall back to the round-up square root for the column count and
    /// to the fewest rows that then suffice.
    pub fn calculate_grid_dimensions(&self, num_videos: usize) -> (r: (usize, usize))
        requires
            1 <= num_videos,
        ensures
            num_videos == 1 ==> r == (1usize, 1usize),
            num_videos == 2 ==> r == (1usize, 2usize),
            num_videos == 3 || num_videos == 4 ==> r == (2usize, 2usize),
            num_videos == 5 || num_videos == 6 ==> r == (2usize, 3usize),
            7 <= num_videos <= 9 ==> r == (3usize, 3usize),
            10 <= num_videos <= 12 ==> r == (3usize, 4usize),
            num_videos > 12 ==> is_ceil_sqrt(r.1 as nat, num_videos as nat),
            num_videos > 12 ==> (r.0 - 1) * r.1 < num_videos,
            1 <= r.0 && 1 <= r.1,
            num_videos <= r.0 * r.1,
            r.0 == spec_grid_rows(num_videos as nat),
            r.1 == spec_grid_cols(num_videos as nat),
    {
        let n = num_videos;
        if n == 1 {
            (1, 1)
        } else if n == 2 {
            (1, 2)
        } else if n <= 4 {
            (2, 2)
        } else if n <= 6 {
            (2, 3)
        } else if n <= 9 {
            (3, 3)
        } else if n <= 12 {
            (3, 4)
        } else {
            let mut cols: usize = 1;
            while (n - 1) / cols >= cols
                invariant
                    13 <= n,
                    1 <= cols <= n,
                    forall|j: int| 1 <= j < cols ==> #[trigger] (j * j) < n,
                decreases n - cols,
            {
                proof {
                    let c = cols as int;
                    let m = n - 1;
                    lemma_fundamental_div_mod(m as int, c);
                    lemma_mod_division_less_than_divisor(m as int, c);
                    assert(c * c <= c * (m / c)) by {
                        lemma_mul_inequality(c, m / c, c);
                        assert(c * (m / c) == (m / c) * c);
                    }
                    assert(c * (m / c) <= m);
                    assert(c * c <= m);
                    assert(c <= c * c) by {
                        lemma_mul_inequality(1, c, c);
                    }
                }
                cols = cols + 1;
            }
            proof {
                let c = cols as int;
                let m = (n - 1) as int;
                lemma_fundamental_div_mod(m, c);
                lemma_mod_division_less_than_divisor(m, c);
                assert(c * (m / c) <= c * (c - 1)) by {
                    lemma_mul_inequality(m / c, c - 1, c);
                    vstd::arithmetic::mul::lemma_mul_is_commutative(m / c, c);
                    vstd::arithmetic::mul::lemma_mul_is_commutative(c - 1, c);
                }
                assert(m <= c * (c - 1) + (c - 1));
                assert(c * (c - 1) + (c - 1) == c * c - 1) by {
                    assert(c * (c - 1) == c * c - c) by {
                        vstd::arithmetic::mul::lemma_mul_is_distributive_sub(c, c, 1);
                        assert(c * 1 == c);
                    }
                }
                assert(n <= c * c);
                if cols >= 2 {
                    assert((c - 1) * (c - 1) < n);
                }
                assert(is_ceil_sqrt(cols as nat, n as nat));
            }
            let rows = (n - 1) / cols + 1;
            proof {
                let c = cols as int;
                let m = (n - 1) as int;
                let q = m / c;
                lemma_fundamental_div_mod(m, c);
                lemma_mod_division_less_than_divisor(m, c);
                assert((q + 1) * c == q * c + c) by {
                    vstd::arithmetic::mul::lemma_mul_is_distributive_add_other_way(c, q, 1);
                    assert(1 * c == c);
                }
                vstd::arithmetic::mul::lemma_mul_is_commutative(q, c);
                assert(c * q == m - m % c);
                assert((q + 1) * c >= m + 1);
                assert(rows * cols >= n);
                assert(q * c <= m);
                assert((rows - 1) * cols < n);
            }
            proof {
                assert(is_ceil_sqrt(cols as nat, n as nat));
                let chosen = choose|c: nat| is_ceil_sqrt(c, n as nat);
                lemma_ceil_sqrt_unique(cols as nat, chosen, n as nat);
                assert(spec_grid_cols(n as nat) == cols as nat);
                assert(spec_grid_rows(n as nat) == rows as nat);
            }
            (rows, cols)
        }
    }
}

/// The filter step that fits input `i` into one grid cell: scale down
/// preserving aspect ratio, pad to the exact cell centering the content,
/// and normalize the pixel aspect ratio to square.
pub open spec fn spec_scale_step(i: nat, cw: nat, ch: nat) -> Seq<char> {
    "["@ + dec_seq(i) + ":v]scale="@ + dec_seq(cw) + ":"@ + dec_seq(ch)
        + ":force_original_aspect_ratio=decrease,pad="@ + dec_seq(cw) + ":"@ + dec_seq(ch)
        + ":(ow-iw)/2:(oh-ih)/2,setsar=1[v"@ + dec_seq(i) + "];"@
}

/// The scale steps for inputs `0..n`, in order.
pub open spec fn spec_scale_steps(n: nat, cw: nat, ch: nat) -> Seq<char>
    decreases n,
{
    if n == 0 {
        Seq::empty()
    } else {
        spec_scale_steps((n - 1) as nat, cw, ch) + spec_scale_step((n - 1) as nat, cw, ch)
    }
}

/// The stream labels `[v0][v1]...` handed to the stacking filter.
pub open spec fn spec_stack_labels(n: nat) -> Seq<char>
    decreases n,
{
    if n == 0 {
        Seq::empty()
    } else {
        spec_stack_labels((n - 1) as nat) + "[v"@ + dec_seq((n - 1) as nat) + "]"@
    }
}

/// The top-left offset `x_y` of cell `idx` in row-major order.
pub open spec fn spec_layout_entry(idx: nat, cols: nat, cw: nat, ch: nat) -> Seq<char>
    recommends
        1 <= cols,
{
    dec_seq((idx % cols) * cw) + "_"@ + dec_seq((idx / cols) * ch)
}

/// The `|`-separated offsets of cells `0..m`.
pub open spec fn spec_layout(m: nat, cols: nat, cw: nat, ch: nat) -> Seq<char>
    decreases m,
{
    if m == 0 {
        Seq::empty()
    } else if m == 1 {
        spec_layout_entry(0, cols, cw, ch)
    } else {
        spec_layout((m - 1) as nat, cols, cw, ch) + "|"@ + spec_layout_entry(
            (m - 1) as nat,
            cols,
            cw,
            ch,
        )
    }
}

/// The whole filter graph for `n` inputs on a `rows x cols` grid: one input
/// is only rescaled to the canvas; otherwise every input is scaled and
/// padded into its cell and a single stacking filter composites them at
/// their row-major offsets, leaving cells beyond `n` empty.
pub open spec fn spec_grid_filter(n: nat, rows: nat, cols: nat) -> Seq<char>
    recommends
        n != 1 ==> 1 <= rows && 1 <= cols,
{
    if n == 1 {
        "[0:v]scale=1920:1080[v]"@
    } else {
        let cw = (CANVAS_WIDTH as nat) / cols;
        let ch = (CANVAS_HEIGHT as nat) / rows;
        let m = if n <= rows * cols {
            n
        } else {
            rows * cols
        };
        spec_scale_steps(n, cw, ch) + spec_stack_labels(n) + "xstack=inputs="@ + dec_seq(n)
            + ":layout="@ + spec_layout(m, cols, cw, ch) + "[v]"@
    }
}

impl VideoCombiner {
    /// Renders the filter graph for this combiner's inputs on a
    /// `rows x cols` grid.
    pub fn build_grid_filter(&self, rows: usize, cols: usize) -> (r: String)
        requires
            self.input_files@.len() != 1 ==> 1 <= rows && 1 <= cols,
        ensures
            r@ == spec_grid_filter(self.input_files@.len(), rows as nat, cols as nat),
    {
        let num_videos = self.input_files.len();
        if num_videos == 1 {
            return String::from_str("[0:v]scale=1920:1080[v]");
        }
        let ghost n = num_videos as nat;
        let cell_width = CANVAS_WIDTH / cols;
        let cell_height = CANVAS_HEIGHT / rows;
        let ghost cw = cell_width as nat;
        let ghost ch = cell_height as nat;

        let mut filter = String::new();
        let mut i: usize = 0;
        while i < num_videos
            invariant
                i <= num_videos,
                cell_width == cw,
                cell_height == ch,
                filter@ == spec_scale_steps(i as nat, cw, ch),
            decreases num_videos - i,
        {
            filter.append("[");
            append_dec(&mut filter, i as u64);
            filter.append(":v]scale=");
            append_dec(&mut filter, cell_width as u64);
            filter.append(":");
            append_dec(&mut filter, cell_height as u64);
            filter.append(":force_original_aspect_ratio=decrease,pad=");
            append_dec(&mut filter, cell_width as u64);
            filter.append(":");
            append_dec(&mut filter, cell_height as u64);
            filter.append(":(ow-iw)/2:(oh-ih)/2,setsar=1[v");
            append_dec(&mut filter, i as u64);
            filter.append("];");
            proof {
                assert(filter@ =~= spec_scale_steps((i + 1) as nat, cw, ch));
            }
            i = i + 1;
        }

        let mut j: usize = 0;
        while j < num_videos
            invariant
                j <= num_videos,
                filter@ == spec_scale_steps(n, cw, ch) + spec_stack_labels(j as nat),
            decreases num_videos - j,
        {
            filter.append("[v");
            append_dec(&mut filter, j as u64);
            filter.append("]");
            proof {
                assert(filter@ =~= spec_scale_steps(n, cw, ch) + spec_stack_labels(
                    (j + 1) as nat,
                ));
            }
            j = j + 1;
        }

        filter.append("xstack=inputs=");
        append_dec(&mut filter, num_videos as u64);
        filter.append(":layout=");
        let ghost head = spec_scale_steps(n, cw, ch) + spec_stack_labels(n) + "xstack=inputs="@
            + dec_seq(n) + ":layout="@;
        proof {
            assert(filter@ =~= head);
        }

        let m = if rows <= usize::MAX / cols {
            proof {
                lemma_mul_inequality(rows as int, usize::MAX as int / cols as int, cols as int);
                lemma_fundamental_div_mod(usize::MAX as int, cols as int);
                lemma_mod_division_less_than_divisor(usize::MAX as int, cols as int);
                vstd::arithmetic::mul::lemma_mul_is_commutative(
                    usize::MAX as int / cols as int,
                    cols as int,
                );
            }
            let total = rows * cols;
            if num_videos < total {
                num_videos
            } else {
                total
            }
        } else {
            proof {
                let q = usize::MAX as int / cols as int;
                lemma_fundamental_div_mod(usize::MAX as int, cols as int);
                lemma_mod_division_less_than_divisor(usize::MAX as int, cols as int);
                lemma_mul_inequality(q + 1, rows as int, cols as int);
                vstd::arithmetic::mul::lemma_mul_is_distributive_add_other_way(cols as int, q, 1);
                vstd::arithmetic::mul::lemma_mul_is_commutative(q, cols as int);
                assert((q + 1) * cols as int > usize::MAX);
                assert(rows * cols > usize::MAX >= num_videos);
            }
            num_videos
        };
        proof {
            assert(m == if n <= (rows as nat) * (cols as nat) {
                n
            } else {
                (rows as nat) * (cols as nat)
            });
        }
        let mut idx: usize = 0;
        while idx < m
            invariant
                idx <= m,
                m <= rows * cols,
                m <= num_videos,
                num_videos != 1,
                1 <= rows && 1 <= cols,
                cell_width == (CANVAS_WIDTH as nat) / (cols as nat),
                cell_height == (CANVAS_HEIGHT as nat) / (rows as nat),
                cell_width == cw,
                cell_height == ch,
                filter@ == head + spec_layout(idx as nat, cols as nat, cw, ch),
            decreases m - idx,
        {
            if idx > 0 {
                filter.append("|");
            }
            proof {
                lemma_mod_division_less_than_divisor(idx as int, cols as int);
                lemma_fundamental_div_mod(CANVAS_WIDTH as int, cols as int);
                lemma_mul_inequality(idx as int % cols as int, cols as int - 1, cell_width as int);
                lemma_mul_inequality(cols as int - 1, cols as int, cell_width as int);
                assert(cols * cell_width <= CANVAS_WIDTH) by {
                    lemma_mod_division_less_than_divisor(CANVAS_WIDTH as int, cols as int);
                    vstd::arithmetic::mul::lemma_mul_is_commutative(
                        cols as int,
                        cell_width as int,
                    );
                }
                assert((idx as int % cols as int) * cell_width <= CANVAS_WIDTH);
                vstd::arithmetic::mul::lemma_mul_is_commutative(rows as int, cols as int);
                lemma_multiply_divide_lt(idx as int, cols as int, rows as int);
                lemma_fundamental_div_mod(CANVAS_HEIGHT as int, rows as int);
                lemma_mul_inequality(idx as int / cols as int, rows as int - 1, cell_height as int);
                lemma_mul_inequality(rows as int - 1, rows as int, cell_height as int);
                assert(rows * cell_height <= CANVAS_HEIGHT) by {
                    lemma_mod_division_less_than_divisor(CANVAS_HEIGHT as int, rows as int);
                    vstd::arithmetic::mul::lemma_mul_is_commutative(
                        rows as int,
                        cell_height as int,
                    );
                }
                assert((idx as int / cols as int) * cell_height <= CANVAS_HEIGHT);
            }
            let x = (idx % cols) * cell_width;
            let y = (idx / cols) * cell_height;
            append_dec(&mut filter, x as u64);
            filter.append("_");
            append_dec(&mut filter, y as u64);
            proof {
                assert(filter@ =~= head + spec_layout((idx + 1) as nat, cols as nat, cw, ch));
            }
            idx = idx + 1;
        }

        filter.append("[v]");
        proof {
            assert(filter@ =~= spec_grid_filter(n, rows as nat, cols as nat));
        }
        filter
    }
}

/// The views of a sequence of strings.
pub open spec fn views_of(v: Seq<String>) -> Seq<Seq<char>> {
    v.map_values(|s: String| s@)
}

/// The `-i <file>` argument pairs naming every input, in order.
pub open spec fn spec_input_args(files: Seq<Seq<char>>) -> Seq<Seq<char>>
    decreases files.len(),
{
    if files.len() == 0 {
        Seq::empty()
    } else {
        spec_input_args(files.drop_last()) + seq!["-i"@, files.last()]
    }
}

/// The argument list of the one-shot composite encode pass: every input,
/// the filter graph, and output settings that favor visual quality over
/// speed, ending with the output file.
pub open spec fn spec_combine_args(
    files: Seq<Seq<char>>,
    filter: Seq<char>,
    output: Seq<char>,
) -> Seq<Seq<char>> {
    spec_input_args(files) + seq![
        "-filter_complex"@,
        filter,
        "-c:v"@,
        "libx264"@,
        "-preset"@,
        "medium"@,
        "-crf"@,
        "23"@,
        "-pix_fmt"@,
        "yuv420p"@,
        output,
    ]
}

/// The horizontal variant of [`spec_scale_step`], without the pixel
/// aspect normalization.
pub open spec fn spec_h_scale_step(i: nat, cw: nat, ch: nat) -> Seq<char> {
    "["@ + dec_seq(i) + ":v]scale="@ + dec_seq(cw) + ":"@ + dec_seq(ch)
        + ":force_original_aspect_ratio=decrease,pad="@ + dec_seq(cw) + ":"@ + dec_seq(ch)
        + ":(ow-iw)/2:(oh-ih)/2[v"@ + dec_seq(i) + "];"@
}

/// The horizontal scale steps for inputs `0..n`, in order.
pub open spec fn spec_h_scale_steps(n: nat, cw: nat, ch: nat) -> Seq<char>
    decreases n,
{
    if n == 0 {
        Seq::empty()
    } else {
        spec_h_scale_steps((n - 1) as nat, cw, ch) + spec_h_scale_step((n - 1) as nat, cw, ch)
    }
}

/// The whole filter graph of the simple side-by-side layout: every input
/// scaled and padded into an equal share of the canvas width, then stacked
/// horizontally.
pub open spec fn spec_horizontal_filter(n: nat) -> Seq<char>
    recommends
        1 <= n,
{
    let cw = (CANVAS_WIDTH as nat) / n;
    let ch = CANVAS_HEIGHT as nat;
    spec_h_scale_steps(n, cw, ch) + spec_stack_labels(n) + "hstack=inputs="@ + dec_seq(n) + "[v]"@
}

impl VideoCombiner {
    /// The argument list of the grid composite pass over this combiner's
    /// inputs, refused when there is nothing to combine. The grid shape is
    /// recomputed from the input count on every call.
    pub fn combine_grid_command(&self) -> (r: Result<Vec<String>, String>)
        ensures
            r is Err <==> self.input_files@.len() == 0,
            r matches Err(e) ==> e@ == "No input files provided"@,
            r matches Ok(args) ==> views_of(args@) == spec_combine_args(
                views_of(self.input_files@),
                spec_grid_filter(
                    self.input_files@.len(),
                    spec_grid_rows(self.input_files@.len()),
                    spec_grid_cols(self.input_files@.len()),
                ),
                self.output_file@,
            ),
    {
        let num_videos = self.input_files.len();
        if num_videos == 0 {
            return Err(String::from_str("No input files provided"));
        }
        let (rows, cols) = self.calculate_grid_dimensions(num_videos);
        let filter = self.build_grid_filter(rows, cols);
        Ok(self.encode_args(filter))
    }

    /// The argument list of the side-by-side composite pass, refused when
    /// there is nothing to combine.
    pub fn combine_horizontal_command(&self) -> (r: Result<Vec<String>, String>)
        ensures
            r is Err <==> self.input_files@.len() == 0,
            r matches Err(e) ==> e@ == "No input files provided"@,
            r matches Ok(args) ==> views_of(args@) == spec_combine_args(
                views_of(self.input_files@),
                spec_horizontal_filter(self.input_files@.len()),
                self.output_file@,
            ),
    {
        let num_videos = self.input_files.len();
        if num_videos == 0 {
            return Err(String::from_str("No input files provided"));
        }
        let ghost n = num_videos as nat;
        let cell_width = CANVAS_WIDTH / num_videos;
        let cell_height = CANVAS_HEIGHT;
        let ghost cw = cell_width as nat;
        let ghost ch = cell_height as nat;

        let mut filter = String::new();
        let mut i: usize = 0;
        while i < num_videos
            invariant
                i <= num_videos,
                cell_width == cw,
                cell_height == ch,
                filter@ == spec_h_scale_steps(i as nat, cw, ch),
            decreases num_videos - i,
        {
            filter.append("[");
            append_dec(&mut filter, i as u64);
            filter.append(":v]scale=");
            append_dec(&mut filter, cell_width as u64);
            filter.append(":");
            append_dec(&mut filter, cell_height as u64);
            filter.append(":force_original_aspect_ratio=decrease,pad=");
            append_dec(&mut filter, cell_width as u64);
            filter.append(":");
            append_dec(&mut filter, cell_height as u64);
            filter.append(":(ow-iw)/2:(oh-ih)/2[v");
            append_dec(&mut filter, i as u64);
            filter.append("];");
            proof {
                assert(filter@ =~= spec_h_scale_steps((i + 1) as nat, cw, ch));
            }
            i = i + 1;
        }

        let mut j: usize = 0;
        while j < num_videos
            invariant
                j <= num_videos,
                filter@ == spec_h_scale_steps(n, cw, ch) + spec_stack_labels(j as nat),
            decreases num_videos - j,
        {
            filter.append("[v");
            append_dec(&mut filter, j as u64);
            filter.append("]");
            proof {
                assert(filter@ =~= spec_h_scale_steps(n, cw, ch) + spec_stack_labels(
                    (j + 1) as nat,
                ));
            }
            j = j + 1;
        }

        filter.append("hstack=inputs=");
        append_dec(&mut filter, num_videos as u64);
        filter.append("[v]");
        proof {
            assert(filter@ =~= spec_horizontal_filter(n));
        }
        Ok(self.encode_args(filter))
    }

    /// Assembles the final argument list around a rendered filter graph.
    fn encode_args(&self, filter: String) -> (r: Vec<String>)
        ensures
            views_of(r@) == spec_combine_args(
                views_of(self.input_files@),
                filter@,
                self.output_file@,
            ),
    {
        let mut args: Vec<String> = Vec::new();
        let mut i: usize = 0;
        while i < self.input_files.len()
            invariant
                i <= self.input_files@.len(),
                views_of(args@) == spec_input_args(
                    views_of(self.input_files@).take(i as int),
                ),
            decreases self.input_files@.len() - i,
        {
            args.push(String::from_str("-i"));
            args.push(self.input_files[i].clone());
            proof {
                let pre = views_of(self.input_files@).take(i as int);
                let post = views_of(self.input_files@).take(i + 1);
                assert(post.drop_last() =~= pre);
                assert(views_of(args@) =~= spec_input_args(post));
            }
            i = i + 1;
        }
        proof {
            assert(views_of(self.input_files@).take(self.input_files@.len() as int) =~= views_of(
                self.input_files@,
            ));
        }
        args.push(String::from_str("-filter_complex"));
        args.push(filter);
        args.push(String::from_str("-c:v"));
        args.push(String::from_str("libx264"));
        args.push(String::from_str("-preset"));
        args.push(String::from_str("medium"));
        args.push(String::from_str("-crf"));
        args.push(String::from_str("23"));
        args.push(String::from_str("-pix_fmt"));
        args.push(String::from_str("yuv420p"));
        args.push(self.output_file.clone());
        proof {
            assert(views_of(args@) =~= spec_combine_args(
                views_of(self.input_files@),
                filter@,
                self.output_file@,
            ));
        }
        args
    }
}

} // verus!
