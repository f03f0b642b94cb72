//! Compacting accumulated screenshot files into a video: when to compact,
//! which files take part and in what order, and how the store's rows are
//! remapped onto video frames.  Listing the directory, writing the video and
//! the row updates themselves are the caller's work.

use vstd::prelude::*;
use crate::strutil::str_eq;
use vstd::multiset::Multiset;

verus! {

/// Plans the compaction of accumulated screenshot images into a video.
#[derive(Debug, Clone)]
pub struct CompactionHelper {
    /// The directory the screenshots accumulate in.
    pub app_data_dir: String,
    /// The store's database file, relative to the data directory.
    pub db_filename_path: String,
    /// How many image files may accumulate before compaction runs.
    pub max_image_files: u32,
}

/// One store row update after compaction: the screenshot at `file_path` now
/// lives at frame `mp4_frame_id` of the video at `mp4_file_path`.
#[derive(Debug, Clone)]
pub struct Mp4FrameUpdate {
    /// The screenshot file the row is keyed by.
    pub file_path: String,
    /// The video the screenshot was compacted into.
    pub mp4_file_path: String,
    /// The frame of the video holding the screenshot.
    pub mp4_frame_id: i64,
}

/// A file name with the screenshot extension.
pub open spec fn spec_is_png_name(name: Seq<char>) -> bool {
    name.len() >= 4 && name.subrange(name.len() - 4, name.len() as int) == ".png"@
}

/// The entries ordered by modification time, oldest first.
pub open spec fn spec_sorted_by_mtime(s: Seq<(String, u64)>) -> bool {
    forall|i: int, j: int| 0 <= i < j < s.len() ==> (#[trigger] s[i]).1 <= (#[trigger] s[j]).1
}

/// A file name ends in the screenshot extension.
pub fn is_png_file_name(name: &str) -> (r: bool)
    ensures
        r == spec_is_png_name(name@),
{
    let len = name.unicode_len();
    if len < 4 {
        return false;
    }
    let suffix = name.substring_char(len - 4, len);
    str_eq(suffix, ".png")
}

impl CompactionHelper {
    /// A new compaction planner for a data directory and its store.
    pub fn new(app_data_dir: String, db_filename_path: String, max_image_files: u32) -> (r:
        CompactionHelper)
        ensures
            r.app_data_dir == app_data_dir,
            r.db_filename_path == db_filename_path,
            r.max_image_files == max_image_files,
    {
        CompactionHelper { app_data_dir, db_filename_path, max_image_files }
    }

    /// Is it time to run compaction, given how many screenshot files have
    /// accumulated?
    pub fn should_compact_screenshots(&self, num_png_files: u32) -> (r: bool)
        ensures
            r == (num_png_files > self.max_image_files),
    {
        num_png_files > self.max_image_files
    }

    /// The screenshot files among a directory's file names, in the order
    /// given.
    pub fn get_png_files(&self, file_names: &Vec<String>) -> (r: Vec<String>)
        ensures
            r@ == file_names@.filter(|n: String| spec_is_png_name(n@)),
    {
        let mut out: Vec<String> = Vec::new();
        let mut i: usize = 0;
        let len = file_names.len();
        while i < len
            invariant
                i <= len,
                len == file_names@.len(),
                out@ == file_names@.take(i as int).filter(|n: String| spec_is_png_name(n@)),
            decreases len - i,
        {
            if is_png_file_name(file_names[i].as_str()) {
                out.push(file_names[i].clone());
            }
            i = i + 1;
            proof {
                broadcast use Seq::lemma_filter_push;

                assert(file_names@.take(i as int) =~= file_names@.take(i - 1).push(
                    file_names@[i - 1],
                ));
                assert(out@ == file_names@.take(i - 1).push(file_names@[i - 1]).filter(
                    |n: String| spec_is_png_name(n@),
                ));
                assert(out@ == file_names@.take(i as int).filter(
                    |n: String| spec_is_png_name(n@),
                ));
            }
        }
        proof {
            assert(file_names@.take(len as int) =~= file_names@);
        }
        out
    }

    /// How many screenshot files a directory's file names hold.
    pub fn count_png_files(&self, file_names: &Vec<String>) -> (r: u32)
        requires
            file_names@.len() <= u32::MAX,
        ensures
            r == file_names@.filter(|n: String| spec_is_png_name(n@)).len(),
    {
        let pngs = self.get_png_files(file_names);
        proof {
            file_names@.lemma_filter_len(|n: String| spec_is_png_name(n@));
        }
        pngs.len() as u32
    }

    /// The screenshot files ordered by modification time, oldest first: the
    /// order in which they become frames of the video.
    pub fn get_png_files_chronologically(&self, entries: &Vec<(String, u64)>) -> (r: Vec<
        (String, u64),
    >)
        ensures
            spec_sorted_by_mtime(r@),
            r@.to_multiset() == entries@.to_multiset(),
            r@.len() == entries@.len(),
    {
        broadcast use vstd::seq_lib::group_to_multiset_ensures;

        let mut rest: Vec<(String, u64)> = Vec::new();
        let mut i: usize = 0;
        let len = entries.len();
        while i < len
            invariant
                i <= len,
                len == entries@.len(),
                rest@ =~= entries@.take(i as int),
            decreases len - i,
        {
            rest.push((entries[i].0.clone(), entries[i].1));
            proof {
                assert(rest@ =~= entries@.take(i + 1));
            }
            i = i + 1;
        }
        proof {
            assert(rest@ =~= entries@);
        }
        let mut out: Vec<(String, u64)> = Vec::new();
        while rest.len() > 0
            invariant
                spec_sorted_by_mtime(out@),
                out@.len() + rest@.len() == entries@.len(),
                out@.to_multiset().add(rest@.to_multiset()) =~= entries@.to_multiset(),
                forall|a: int, b: int|
                    0 <= a < out@.len() && 0 <= b < rest@.len() ==> (#[trigger] out@[a]).1 <= (
                    #[trigger] rest@[b]).1,
            decreases rest@.len(),
        {
            let mut min_idx: usize = 0;
            let mut k: usize = 1;
            while k < rest.len()
                invariant
                    min_idx < k <= rest@.len(),
                    forall|m: int| 0 <= m < k ==> (#[trigger] rest@[m]).1 >= rest@[min_idx as int].1,
                decreases rest@.len() - k,
            {
                if rest[k].1 < rest[min_idx].1 {
                    min_idx = k;
                }
                k = k + 1;
            }
            let ghost old_out = out@;
            let ghost old_rest = rest@;
            let picked = rest.remove(min_idx);
            let ghost picked_val = picked;
            out.push(picked);
            proof {
                broadcast use vstd::multiset::group_multiset_axioms;
                broadcast use vstd::seq_lib::group_to_multiset_ensures;

                assert(old_rest[min_idx as int] == picked_val);
                assert(old_rest.contains(picked_val));
                assert(old_rest.to_multiset().count(picked_val) > 0);
                assert(rest@ == old_rest.remove(min_idx as int));
                assert(old_rest.remove(min_idx as int).to_multiset() =~= old_rest.to_multiset()
                    .remove(old_rest[min_idx as int]));
                assert(out@ == old_out.push(picked_val));
                assert(old_out.push(picked_val).to_multiset() =~= old_out.to_multiset().insert(
                    picked_val,
                ));
                assert(rest@.to_multiset() =~= old_rest.to_multiset().remove(picked_val));
                assert(out@.to_multiset() =~= old_out.to_multiset().insert(picked_val));
                assert(out@.to_multiset().add(rest@.to_multiset()) =~= old_out.to_multiset().add(
                    old_rest.to_multiset(),
                ));
                assert forall|a: int, b: int|
                    0 <= a < out@.len() && 0 <= b < rest@.len() implies (#[trigger] out@[a]).1 <= (
                #[trigger] rest@[b]).1 by {
                    let orig_b: int = if b < min_idx {
                        b
                    } else {
                        b + 1
                    };
                    assert(rest@[b] == old_rest[orig_b]);
                    assert(old_rest[orig_b].1 >= picked_val.1);
                    if a < out@.len() - 1 {
                        assert(out@[a] == old_out[a]);
                    } else {
                        assert(out@[a] == picked_val);
                    }
                }
                assert(spec_sorted_by_mtime(out@));
            }
        }
        proof {
            broadcast use vstd::multiset::group_multiset_axioms;

            assert(rest@.to_multiset() =~= Multiset::<(String, u64)>::empty());
            assert(out@.to_multiset() =~= entries@.to_multiset());
        }
        out
    }

    /// The store row updates for a compaction: the `i`-th screenshot file,
    /// in chronological order, becomes frame `i` of the target video.
    pub fn mp4_update_plan(&self, png_files: &Vec<String>, target_mp4_fn: &str) -> (r: Vec<
        Mp4FrameUpdate,
    >)
        requires
            png_files@.len() <= 0x7fff_ffff_ffff_ffff,
        ensures
            r@.len() == png_files@.len(),
            forall|i: int|
                0 <= i < r@.len() ==> {
                    &&& (#[trigger] r@[i]).file_path == png_files@[i]
                    &&& r@[i].mp4_file_path@ == target_mp4_fn@
                    &&& r@[i].mp4_frame_id == i
                },
    {
        let mut updates: Vec<Mp4FrameUpdate> = Vec::new();
        let mut i: usize = 0;
        let len = png_files.len();
        while i < len
            invariant
                i <= len,
                len == png_files@.len(),
                len <= 0x7fff_ffff_ffff_ffff,
                updates@.len() == i,
                forall|j: int|
                    0 <= j < i ==> {
                        &&& (#[trigger] updates@[j]).file_path == png_files@[j]
                        &&& updates@[j].mp4_file_path@ == target_mp4_fn@
                        &&& updates@[j].mp4_frame_id == j
                    },
            decreases len - i,
        {
            updates.push(
                Mp4FrameUpdate {
                    file_path: png_files[i].clone(),
                    mp4_file_path: String::from_str(target_mp4_fn),
                    mp4_frame_id: i as i64,
                },
            );
            i = i + 1;
        }
        updates
    }

    /// Plan a compaction run over the screenshot entries of the data
    /// directory, each a file name with its modification time: nothing while
    /// too few files have accumulated; otherwise the files in chronological
    /// order together with the row updates mapping each onto its video
    /// frame.
    pub fn plan_compaction(&self, png_entries: &Vec<(String, u64)>, target_mp4_fn: &str) -> (r:
        Option<(Vec<(String, u64)>, Vec<Mp4FrameUpdate>)>)
        requires
            png_entries@.len() <= u32::MAX,
        ensures
            r is None <==> png_entries@.len() <= self.max_image_files,
            r matches Some(plan) ==> {
                &&& spec_sorted_by_mtime(plan.0@)
                &&& plan.0@.to_multiset() == png_entries@.to_multiset()
                &&& plan.1@.len() == plan.0@.len()
                &&& forall|i: int|
                    0 <= i < plan.1@.len() ==> {
                        &&& (#[trigger] plan.1@[i]).file_path == plan.0@[i].0
                        &&& plan.1@[i].mp4_file_path@ == target_mp4_fn@
                        &&& plan.1@[i].mp4_frame_id == i
                    }
            },
    {
        if !self.should_compact_screenshots(png_entries.len() as u32) {
            return None;
        }
        let ordered = self.get_png_files_chronologically(png_entries);
        let mut names: Vec<String> = Vec::new();
        let mut i: usize = 0;
        let len = ordered.len();
        while i < len
            invariant
                i <= len,
                len == ordered@.len(),
                names@.len() == i,
                forall|j: int| 0 <= j < i ==> #[trigger] names@[j] == ordered@[j].0,
            decreases len - i,
        {
            names.push(ordered[i].0.clone());
            i = i + 1;
        }
        let updates = self.mp4_update_plan(&names, target_mp4_fn);
        Some((ordered, updates))
    }
}

} // verus!
