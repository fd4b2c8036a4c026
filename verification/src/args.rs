//! Job requests and the deterministic argument vector built from them.

use vstd::prelude::*;
use vstd::string::StringExecFns;

verus! {

/// A request to run one job: ordered input video paths, output directory,
/// a named preset, and optional overrides for two auxiliary tools.
/// Immutable once submitted.
pub struct ProcessArgs {
    pub videos: Vec<String>,
    pub output_dir: String,
    pub preset: String,
    pub colmap_path: Option<String>,
    pub brush_path: Option<String>,
}

/// One `--video <path>` pair per input, in input order.
pub open spec fn video_pairs(videos: Seq<Seq<char>>) -> Seq<Seq<char>>
    decreases videos.len(),
{
    if videos.len() == 0 {
        Seq::empty()
    } else {
        seq!["--video"@, videos[0]] + video_pairs(videos.drop_first())
    }
}

/// `<flag> <path>` when the optional path is present, nothing otherwise.
pub open spec fn opt_flag(flag: Seq<char>, path: Option<Seq<char>>) -> Seq<Seq<char>> {
    match path {
        Some(p) => seq![flag, p],
        None => Seq::empty(),
    }
}

/// The fixed head of every argument vector.
pub open spec fn args_head(a: ProcessArgs) -> Seq<Seq<char>> {
    seq!["process"@, "--output"@, a.output_dir@, "--preset"@, a.preset@]
}

/// The `--video` pair for input `i` stands at offsets `5 + 2i` and `5 + 2i + 1`.
pub open spec fn video_pair_at(a: ProcessArgs, i: int) -> bool {
    spec_args(a)[5 + 2 * i] == "--video"@ && spec_args(a)[5 + 2 * i + 1] == a.videos@[i]@
}

/// The full argument vector for a request: fixed head, then the video pairs,
/// then the optional tool flags.
pub open spec fn spec_args(a: ProcessArgs) -> Seq<Seq<char>> {
    args_head(a) + video_pairs(a.videos.deep_view()) + opt_flag(
        "--colmap-path"@,
        a.colmap_path.deep_view(),
    ) + opt_flag("--brush-path"@, a.brush_path.deep_view())
}

/// Extending the inputs by one path appends exactly one `--video` pair.
pub proof fn lemma_video_pairs_snoc(videos: Seq<Seq<char>>)
    requires
        videos.len() > 0,
    ensures
        video_pairs(videos) == video_pairs(videos.drop_last()).push("--video"@).push(
            videos.last(),
        ),
    decreases videos.len(),
{
    if videos.len() == 1 {
        assert(videos.drop_first() =~= Seq::<Seq<char>>::empty());
        assert(videos.drop_last() =~= Seq::<Seq<char>>::empty());
        assert(video_pairs(videos) =~= video_pairs(videos.drop_last()).push("--video"@).push(
            videos.last(),
        ));
    } else {
        let tail = videos.drop_first();
        lemma_video_pairs_snoc(tail);
        assert(tail.drop_last() =~= videos.drop_last().drop_first());
        assert(tail.last() == videos.last());
        assert(video_pairs(videos) =~= video_pairs(videos.drop_last()).push("--video"@).push(
            videos.last(),
        ));
    }
}

/// The video pairs hold twice as many entries as there are inputs.
pub proof fn lemma_video_pairs_len(videos: Seq<Seq<char>>)
    ensures
        video_pairs(videos).len() == 2 * videos.len(),
    decreases videos.len(),
{
    if videos.len() > 0 {
        lemma_video_pairs_len(videos.drop_first());
    }
}

/// Shape of the video pairs: the flag at every even offset, the matching
/// input path right after it.
pub proof fn lemma_video_pairs_index(videos: Seq<Seq<char>>, i: int)
    requires
        0 <= i < videos.len(),
    ensures
        video_pairs(videos)[2 * i] == "--video"@,
        video_pairs(videos)[2 * i + 1] == videos[i],
    decreases i,
{
    let tail = videos.drop_first();
    lemma_video_pairs_len(tail);
    if i > 0 {
        lemma_video_pairs_index(tail, i - 1);
        assert(tail[i - 1] == videos[i]);
        assert(video_pairs(videos)[2 * i] == video_pairs(tail)[2 * i - 2]);
        assert(2 * i - 2 == 2 * (i - 1));
        assert(video_pairs(videos)[2 * i + 1] == video_pairs(tail)[2 * (i - 1) + 1]);
    }
}

impl ProcessArgs {
    /// Build the argument vector handed to the external pipeline.
    pub fn build_args(&self) -> (r: Vec<String>)
        ensures
            r.deep_view() == spec_args(*self),
    {
        let mut r: Vec<String> = Vec::new();
        r.push(String::from_str("process"));
        r.push(String::from_str("--output"));
        r.push(self.output_dir.clone());
        r.push(String::from_str("--preset"));
        r.push(self.preset.clone());
        assert(r.deep_view() =~= args_head(*self));
        let ghost head = args_head(*self);
        let mut i: usize = 0;
        while i < self.videos.len()
            invariant
                i <= self.videos.len(),
                head == args_head(*self),
                r.deep_view() =~= head + video_pairs(self.videos.deep_view().take(i as int)),
            decreases self.videos.len() - i,
        {
            let ghost pre = r.deep_view();
            r.push(String::from_str("--video"));
            r.push(self.videos[i].clone());
            i = i + 1;
            proof {
                let vs = self.videos.deep_view();
                assert(r.deep_view() =~= pre.push("--video"@).push(vs[i - 1]));
                lemma_video_pairs_snoc(vs.take(i as int));
                assert(vs.take(i as int).drop_last() =~= vs.take(i as int - 1));
                assert(vs.take(i as int).last() == vs[i - 1]);
                assert(r.deep_view() =~= head + video_pairs(vs.take(i as int)));
            }
        }
        assert(self.videos.deep_view().take(self.videos.len() as int) =~= self
            .videos
            .deep_view());
        match &self.colmap_path {
            Some(p) => {
                r.push(String::from_str("--colmap-path"));
                r.push(p.clone());
            },
            None => {},
        }
        match &self.brush_path {
            Some(p) => {
                r.push(String::from_str("--brush-path"));
                r.push(p.clone());
            },
            None => {},
        }
        assert(r.deep_view() =~= spec_args(*self));
        r
    }
}

/// Layout law for every request: the vector starts with the fixed head,
/// carries exactly one `--video` pair per input path in input order, and ends
/// with a tool flag pair exactly when the corresponding path is present.
pub proof fn lemma_args_layout(a: ProcessArgs)
    ensures
        spec_args(a).len() == 5 + 2 * a.videos@.len() + (
        if a.colmap_path is Some {
            2int
        } else {
            0int
        }) + (
        if a.brush_path is Some {
            2int
        } else {
            0int
        }),
        spec_args(a)[0] == "process"@,
        spec_args(a)[1] == "--output"@,
        spec_args(a)[2] == a.output_dir@,
        spec_args(a)[3] == "--preset"@,
        spec_args(a)[4] == a.preset@,
        forall|i: int| 0 <= i < a.videos@.len() ==> #[trigger] video_pair_at(a, i),
        a.colmap_path matches Some(p) ==> spec_args(a)[5 + 2 * a.videos@.len() as int]
            == "--colmap-path"@ && spec_args(a)[5 + 2 * a.videos@.len() as int + 1] == p@,
        a.brush_path matches Some(p) ==> {
            let base = 5 + 2 * a.videos@.len() as int + (
            if a.colmap_path is Some {
                2int
            } else {
                0int
            });
            spec_args(a)[base] == "--brush-path"@ && spec_args(a)[base + 1] == p@
        },
{
    let vs = a.videos.deep_view();
    let vp = video_pairs(vs);
    lemma_video_pairs_len(vs);
    assert(vs.len() == a.videos@.len());
    assert forall|i: int| 0 <= i < a.videos@.len() implies #[trigger] video_pair_at(a, i) by {
        lemma_video_pairs_index(vs, i);
        assert(vp[2 * i] == "--video"@);
        assert(vp[2 * i + 1] == vs[i]);
        assert(spec_args(a)[5 + 2 * i] == vp[2 * i]);
        assert(spec_args(a)[5 + 2 * i + 1] == vp[2 * i + 1]);
    }
}

} // verus!
