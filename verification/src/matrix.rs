//! The job matrix: every frame size with every frame rate and every quality
//! factor, in a fixed order.

use crate::config::{lemma_file_name_injective, VideoConfig};
use crate::resolution::VideoRes;
use vstd::arithmetic::div_mod::{lemma_fundamental_div_mod, lemma_fundamental_div_mod_converse};
use vstd::prelude::*;

verus! {

/// One point of the matrix.
#[derive(Debug, Clone, Copy, PartialEq, Eq, Structural)]
pub struct VideoConfigParams {
    pub res: VideoRes,
    pub fps: u32,
    pub crf: u32,
}

/// The three lists that span the matrix.
#[derive(Debug, PartialEq, Eq)]
pub struct VideoConfigParamsIter {
    pub res: Vec<VideoRes>,
    pub fps: Vec<u32>,
    pub crf: Vec<u32>,
}

impl Clone for VideoConfigParamsIter {
    fn clone(&self) -> (r: Self)
        ensures
            r.res@ == self.res@,
            r.fps@ == self.fps@,
            r.crf@ == self.crf@,
    {
        let res = self.res.clone();
        let fps = self.fps.clone();
        let crf = self.crf.clone();
        assert(res@ =~= self.res@);
        assert(fps@ =~= self.fps@);
        assert(crf@ =~= self.crf@);
        VideoConfigParamsIter { res, fps, crf }
    }
}

/// The place in the matrix of the point made of the `i`-th frame size, the
/// `j`-th of `fps_len` frame rates and the `k`-th of `crf_len` quality
/// factors: the frame size varies slowest, the quality factor fastest.
pub open spec fn matrix_index(i: int, j: int, k: int, fps_len: int, crf_len: int) -> int {
    (i * fps_len + j) * crf_len + k
}

/// The point at place `n` of the matrix.
pub open spec fn matrix_at(res: Seq<VideoRes>, fps: Seq<u32>, crf: Seq<u32>, n: int)
    -> VideoConfigParams {
    VideoConfigParams {
        res: res[n / (fps.len() * crf.len()) as int],
        fps: fps[(n / crf.len() as int) % fps.len() as int],
        crf: crf[n % crf.len() as int],
    }
}

/// The matrix: as many points as the product of the three lengths, each
/// frame size with each frame rate with each quality factor.
pub open spec fn job_matrix(res: Seq<VideoRes>, fps: Seq<u32>, crf: Seq<u32>) -> Seq<
    VideoConfigParams,
> {
    Seq::new(res.len() * fps.len() * crf.len(), |n: int| matrix_at(res, fps, crf, n))
}

/// The place of a point lies in the matrix, and the point of that place is
/// made of the three entries that the place was made of.
pub proof fn lemma_matrix_index(
    res: Seq<VideoRes>,
    fps: Seq<u32>,
    crf: Seq<u32>,
    i: int,
    j: int,
    k: int,
)
    requires
        0 <= i < res.len(),
        0 <= j < fps.len(),
        0 <= k < crf.len(),
    ensures
        0 <= matrix_index(i, j, k, fps.len() as int, crf.len() as int) < job_matrix(
            res,
            fps,
            crf,
        ).len(),
        job_matrix(res, fps, crf)[matrix_index(i, j, k, fps.len() as int, crf.len() as int)]
            == (VideoConfigParams { res: res[i], fps: fps[j], crf: crf[k] }),
{
    let f = fps.len() as int;
    let c = crf.len() as int;
    let r = res.len() as int;
    let n = matrix_index(i, j, k, f, c);
    assert(n == i * (f * c) + (j * c + k)) by (nonlinear_arith)
        requires
            n == (i * f + j) * c + k,
    ;
    assert(0 <= j * c + k < f * c) by (nonlinear_arith)
        requires
            0 <= j < f,
            0 <= k < c,
    ;
    assert(0 <= n < r * f * c) by (nonlinear_arith)
        requires
            n == i * (f * c) + (j * c + k),
            0 <= j * c + k < f * c,
            0 <= i < r,
    ;
    assert(0 <= i * f + j) by (nonlinear_arith)
        requires
            0 <= i,
            0 <= j,
            0 < f,
    ;
    lemma_fundamental_div_mod_converse(n, f * c, i, j * c + k);
    lemma_fundamental_div_mod_converse(n, c, i * f + j, k);
    lemma_fundamental_div_mod_converse(i * f + j, f, i, j);
}

/// Every place of the matrix is the place of one point: of the frame size,
/// the frame rate and the quality factor that `matrix_at` reads there.
pub proof fn lemma_matrix_place(fps_len: int, crf_len: int, n: int)
    requires
        0 < fps_len,
        0 < crf_len,
        0 <= n,
    ensures
        n == matrix_index(
            n / (fps_len * crf_len),
            (n / crf_len) % fps_len,
            n % crf_len,
            fps_len,
            crf_len,
        ),
        0 <= (n / crf_len) % fps_len < fps_len,
        0 <= n % crf_len < crf_len,
        0 <= n / (fps_len * crf_len),
{
    let f = fps_len;
    let c = crf_len;
    let q = n / c;
    lemma_fundamental_div_mod(n, c);
    lemma_fundamental_div_mod(q, f);
    assert(0 <= q) by (nonlinear_arith)
        requires
            q == n / c,
            0 <= n,
            0 < c,
    ;
    assert(0 <= q / f) by (nonlinear_arith)
        requires
            0 <= q,
            0 < f,
    ;
    assert(n == (q / f) * (f * c) + ((q % f) * c + n % c)) by (nonlinear_arith)
        requires
            n == c * q + n % c,
            q == f * (q / f) + q % f,
    ;
    assert(0 <= (q % f) * c + n % c < f * c) by (nonlinear_arith)
        requires
            0 <= q % f < f,
            0 <= n % c < c,
    ;
    assert(f * c > 0) by (nonlinear_arith)
        requires
            f > 0,
            c > 0,
    ;
    lemma_fundamental_div_mod_converse(n, f * c, q / f, (q % f) * c + n % c);
    assert(n == ((n / (f * c)) * f + q % f) * c + n % c) by (nonlinear_arith)
        requires
            n == (q / f) * (f * c) + ((q % f) * c + n % c),
            n / (f * c) == q / f,
    ;
}

impl VideoConfigParams {
    /// The configuration of this point, with or without audio.
    pub fn to_config(self, has_audio: bool) -> (r: VideoConfig)
        ensures
            r == self.config(has_audio),
    {
        VideoConfig { res: self.res, fps: self.fps, crf: self.crf, has_audio }
    }

    /// The configuration of this point, with or without audio.
    pub open spec fn config(self, has_audio: bool) -> VideoConfig {
        VideoConfig { res: self.res, fps: self.fps, crf: self.crf, has_audio }
    }
}

impl VideoConfigParamsIter {
    /// The matrix spanned by these frame sizes, frame rates and quality
    /// factors.
    pub fn new(res: Vec<VideoRes>, fps: Vec<u32>, crf: Vec<u32>) -> (r: Self)
        ensures
            r.res == res,
            r.fps == fps,
            r.crf == crf,
    {
        VideoConfigParamsIter { res, fps, crf }
    }

    /// The points of the matrix in their order: the frame size varies
    /// slowest, the quality factor fastest.
    pub fn expand(&self) -> (r: Vec<VideoConfigParams>)
        ensures
            r@ == job_matrix(self.res@, self.fps@, self.crf@),
            r@.len() == self.res@.len() * self.fps@.len() * self.crf@.len(),
    {
        let ghost all = job_matrix(self.res@, self.fps@, self.crf@);
        let ghost f = self.fps@.len() as int;
        let ghost c = self.crf@.len() as int;
        let mut r: Vec<VideoConfigParams> = Vec::new();
        let mut i: usize = 0;
        assert(matrix_index(0, 0, 0, f, c) == 0) by (nonlinear_arith);
        while i < self.res.len()
            invariant
                i <= self.res.len(),
                all == job_matrix(self.res@, self.fps@, self.crf@),
                f == self.fps@.len(),
                c == self.crf@.len(),
                r@.len() == matrix_index(i as int, 0, 0, f, c),
                r@.len() <= all.len(),
                r@ == all.take(r@.len() as int),
            decreases self.res.len() - i,
        {
            let mut j: usize = 0;
            while j < self.fps.len()
                invariant
                    i < self.res.len(),
                    j <= self.fps.len(),
                    all == job_matrix(self.res@, self.fps@, self.crf@),
                    f == self.fps@.len(),
                    c == self.crf@.len(),
                    r@.len() == matrix_index(i as int, j as int, 0, f, c),
                    r@.len() <= all.len(),
                    r@ == all.take(r@.len() as int),
                decreases self.fps.len() - j,
            {
                let mut k: usize = 0;
                while k < self.crf.len()
                    invariant
                        i < self.res.len(),
                        j < self.fps.len(),
                        k <= self.crf.len(),
                        all == job_matrix(self.res@, self.fps@, self.crf@),
                        f == self.fps@.len(),
                        c == self.crf@.len(),
                        r@.len() == matrix_index(i as int, j as int, k as int, f, c),
                        r@.len() <= all.len(),
                        r@ == all.take(r@.len() as int),
                    decreases self.crf.len() - k,
                {
                    proof {
                        lemma_matrix_index(
                            self.res@,
                            self.fps@,
                            self.crf@,
                            i as int,
                            j as int,
                            k as int,
                        );
                    }
                    let ghost before = r@;
                    r.push(VideoConfigParams { res: self.res[i], fps: self.fps[j], crf: self.crf[k] });
                    assert(r@ =~= all.take(before.len() as int + 1));
                    k += 1;
                }
                assert(matrix_index(i as int, j as int, c, f, c) == matrix_index(
                    i as int,
                    j + 1,
                    0,
                    f,
                    c,
                )) by (nonlinear_arith);
                j += 1;
            }
            assert(matrix_index(i as int, f, 0, f, c) == matrix_index(i + 1, 0, 0, f, c))
                by (nonlinear_arith);
            i += 1;
        }
        assert(r@.len() == self.res@.len() * f * c) by (nonlinear_arith)
            requires
                r@.len() == (i * f + 0) * c + 0,
                i == self.res@.len(),
        ;
        assert(r@ =~= all);
        r
    }
}

/// The frame sizes of `res` differ pairwise in width or height.
pub open spec fn distinct_sizes(res: Seq<VideoRes>) -> bool {
    forall|a: int, b: int| 0 <= a < b < res.len() ==> res[a].wh() != res[b].wh()
}

/// The numbers of `values` differ pairwise.
pub open spec fn distinct_values(values: Seq<u32>) -> bool {
    forall|a: int, b: int| 0 <= a < b < values.len() ==> values[a] != values[b]
}

/// In a matrix spanned by lists that hold nothing twice, no two points have
/// the same name part: the outputs of its jobs cannot fall on one file.
pub proof fn lemma_matrix_names_differ(
    res: Seq<VideoRes>,
    fps: Seq<u32>,
    crf: Seq<u32>,
    has_audio: bool,
    m: int,
    n: int,
)
    requires
        distinct_sizes(res),
        distinct_values(fps),
        distinct_values(crf),
        0 <= m < n < job_matrix(res, fps, crf).len(),
    ensures
        job_matrix(res, fps, crf)[m].config(has_audio).file_name() != job_matrix(
            res,
            fps,
            crf,
        )[n].config(has_audio).file_name(),
{
    let f = fps.len() as int;
    let c = crf.len() as int;
    let r = res.len() as int;
    let a = job_matrix(res, fps, crf)[m].config(has_audio);
    let b = job_matrix(res, fps, crf)[n].config(has_audio);
    if a.file_name() == b.file_name() {
        lemma_file_name_injective(a, b);
        assert(f > 0 && c > 0) by (nonlinear_arith)
            requires
                0 < r * f * c,
                0 <= f,
                0 <= c,
                0 <= r,
        ;
        lemma_matrix_place(f, c, m);
        lemma_matrix_place(f, c, n);
        let (mi, mj, mk) = (m / (f * c), (m / c) % f, m % c);
        let (ni, nj, nk) = (n / (f * c), (n / c) % f, n % c);
        assert(mi < r && ni < r) by (nonlinear_arith)
            requires
                m == (mi * f + mj) * c + mk,
                n == (ni * f + nj) * c + nk,
                0 <= mj,
                0 <= mk,
                0 <= nj,
                0 <= nk,
                0 < f,
                0 < c,
                m < r * f * c,
                n < r * f * c,
        ;
        assert(mi == ni) by {
            if mi < ni {
                assert(res[mi].wh() != res[ni].wh());
            } else if ni < mi {
                assert(res[ni].wh() != res[mi].wh());
            }
        }
        assert(mj == nj) by {
            if mj < nj {
                assert(fps[mj] != fps[nj]);
            } else if nj < mj {
                assert(fps[nj] != fps[mj]);
            }
        }
        assert(mk == nk) by {
            if mk < nk {
                assert(crf[mk] != crf[nk]);
            } else if nk < mk {
                assert(crf[nk] != crf[mk]);
            }
        }
        assert(false);
    }
}

} // verus!
