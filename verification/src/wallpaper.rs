use vstd::prelude::*;
use std::collections::VecDeque;

use crate::aligned_image::AlignedImage;
use crate::schedule::Schedule;
use crate::schedule::poll_spec;
use crate::schedule::schedule_valid;
use crate::schedule::slot_of;
use crate::web::joined_url;
use crate::web::url_join;

verus! {

/// A decoded wallpaper, ready to be shown.
pub struct WallpaperData {
    pub image: AlignedImage,
}

/// How many decoded wallpapers are kept ready at most.
pub const MAX_QUEUE_SIZE: usize = 2;

/// The decoded wallpapers, the one on screen first.
pub struct WallpaperQueue<T> {
    queue: VecDeque<T>,
}

impl<T> View for WallpaperQueue<T> {
    type V = Seq<T>;

    closed spec fn view(&self) -> Seq<T> {
        self.queue@
    }
}

impl<T> WallpaperQueue<T> {
    /// The invariant that every queue keeps: it holds no more than
    /// `MAX_QUEUE_SIZE` wallpapers.
    #[verifier::type_invariant]
    pub open spec fn wf(&self) -> bool {
        self@.len() <= MAX_QUEUE_SIZE
    }

    /// An empty queue.
    pub fn new() -> (q: Self)
        ensures
            q@ == Seq::<T>::empty(),
    {
        WallpaperQueue { queue: VecDeque::new() }
    }

    /// How many wallpapers are queued.
    pub fn len(&self) -> (n: usize)
        ensures
            n == self@.len(),
    {
        self.queue.len()
    }

    /// The wallpaper on screen, if any.
    pub fn get_current(&self) -> (current: Option<&T>)
        ensures
            current == (if self@.len() > 0 {
                Some(&self@[0])
            } else {
                None
            }),
    {
        if self.queue.len() > 0 {
            Some(&self.queue[0])
        } else {
            None
        }
    }

    /// Moves to the next wallpaper when one is queued behind the current one, and
    /// says whether it did; the last wallpaper is never removed.
    pub fn move_next(&mut self) -> (moved: bool)
        ensures
            final(self)@.len() <= MAX_QUEUE_SIZE,
            moved == (old(self)@.len() >= 2),
            moved ==> final(self)@ == old(self)@.drop_first(),
            !moved ==> final(self)@ == old(self)@,
    {
        proof {
            use_type_invariant(&*self);
        }
        if self.queue.len() >= 2 {
            let mut q: VecDeque<T> = VecDeque::new();
            std::mem::swap(&mut q, &mut self.queue);
            let _ = q.pop_front();
            assert(q@ =~= old(self)@.drop_first());
            self.queue = q;
            true
        } else {
            false
        }
    }

    /// The queue has no room for another wallpaper.
    pub fn is_full(&self) -> (full: bool)
        ensures
            full == (self@.len() >= MAX_QUEUE_SIZE),
    {
        self.queue.len() >= MAX_QUEUE_SIZE
    }

    /// Appends a freshly decoded wallpaper when there is room, and says whether
    /// it did.
    pub fn push(&mut self, wallpaper: T) -> (pushed: bool)
        ensures
            final(self)@.len() <= MAX_QUEUE_SIZE,
            pushed == (old(self)@.len() < MAX_QUEUE_SIZE),
            pushed ==> final(self)@ == old(self)@.push(wallpaper),
            !pushed ==> final(self)@ == old(self)@,
    {
        proof {
            use_type_invariant(&*self);
        }
        if self.queue.len() < MAX_QUEUE_SIZE {
            let mut q: VecDeque<T> = VecDeque::new();
            std::mem::swap(&mut q, &mut self.queue);
            q.push_back(wallpaper);
            self.queue = q;
            true
        } else {
            false
        }
    }
}

/// Queueing a wallpaper never changes the one on screen.
pub proof fn lemma_push_keeps_current<T>(queue: Seq<T>, wallpaper: T)
    requires
        queue.len() > 0,
    ensures
        queue.push(wallpaper)[0] == queue[0],
{
}

/// What the wallpaper worker does on a timer tick.
#[derive(Debug, PartialEq, Eq, Structural)]
pub enum WallpaperAction {
    /// Nothing: it already ran in this slot.
    Idle,
    /// Mark the slot as done without fetching: the queue is full.
    Skip(i128),
    /// Fetch a new wallpaper, then mark the slot as done.
    Fetch(i128),
}

/// What the wallpaper worker does at time `now`, having last run in
/// `last_slot`, with `queued` wallpapers waiting.
pub open spec fn wallpaper_action_spec(
    s: Schedule,
    last_slot: i128,
    now: i64,
    queued: usize,
) -> WallpaperAction {
    match poll_spec(s, last_slot, now) {
        None => WallpaperAction::Idle,
        Some(slot) => if queued >= MAX_QUEUE_SIZE {
            WallpaperAction::Skip(slot)
        } else {
            WallpaperAction::Fetch(slot)
        },
    }
}

/// Decides what the wallpaper worker does on a timer tick.
pub fn wallpaper_action(s: &Schedule, last_slot: i128, now: i64, queued: usize) -> (action:
    WallpaperAction)
    requires
        schedule_valid(*s),
    ensures
        action == wallpaper_action_spec(*s, last_slot, now, queued),
{
    match s.poll(last_slot, now) {
        None => WallpaperAction::Idle,
        Some(slot) => if queued >= MAX_QUEUE_SIZE {
            WallpaperAction::Skip(slot)
        } else {
            WallpaperAction::Fetch(slot)
        },
    }
}

/// What the wallpaper worker does on a tick, stated on the slot and the queue:
/// in the slot it last ran in it does nothing; in a new slot it fetches a
/// wallpaper while fewer than `MAX_QUEUE_SIZE` (two) are queued, and otherwise
/// only marks the slot as done.
pub proof fn lemma_wallpaper_action_fetches_when_room(
    s: Schedule,
    last_slot: i128,
    now: i64,
    queued: usize,
)
    requires
        schedule_valid(s),
    ensures
        MAX_QUEUE_SIZE == 2,
        slot_of(s, now) == last_slot ==> wallpaper_action_spec(s, last_slot, now, queued)
            == WallpaperAction::Idle,
        slot_of(s, now) != last_slot && queued < MAX_QUEUE_SIZE ==> wallpaper_action_spec(
            s,
            last_slot,
            now,
            queued,
        ) == WallpaperAction::Fetch(slot_of(s, now) as i128),
        slot_of(s, now) != last_slot && queued >= MAX_QUEUE_SIZE ==> wallpaper_action_spec(
            s,
            last_slot,
            now,
            queued,
        ) == WallpaperAction::Skip(slot_of(s, now) as i128),
{
}

/// The image URLs still to show, in order.
pub struct UrlQueue {
    urls: VecDeque<String>,
}

impl View for UrlQueue {
    type V = Seq<String>;

    closed spec fn view(&self) -> Seq<String> {
        self.urls@
    }
}

impl UrlQueue {
    /// An empty URL queue.
    pub fn new() -> (q: Self)
        ensures
            q@ == Seq::<String>::empty(),
    {
        UrlQueue { urls: VecDeque::new() }
    }

    /// The next URL to show. The freshly fetched list replaces the queue only
    /// when the queue has run out, so a rotation is shown to its end; `None`
    /// when both are empty.
    pub fn next_url(&mut self, fresh: VecDeque<String>) -> (url: Option<String>)
        ensures
            ({
                let source = if old(self)@.len() == 0 {
                    fresh@
                } else {
                    old(self)@
                };
                &&& url == (if source.len() > 0 {
                    Some(source[0])
                } else {
                    None
                })
                &&& final(self)@ == (if source.len() > 0 {
                    source.drop_first()
                } else {
                    source
                })
            }),
    {
        if self.urls.len() == 0 {
            self.urls = fresh;
        }
        let ghost source = self@;
        let url = self.urls.pop_front();
        proof {
            if source.len() > 0 {
                assert(self@ =~= source.drop_first());
            }
        }
        url
    }
}

/// Where the Bing image archive serves its pictures from.
pub const BING_BASE_URL: &'static str = "https://bing.com/";

/// The path of the ultra-high-definition picture for an archive entry.
pub open spec fn uhd_path(urlbase: Seq<char>) -> Seq<char> {
    urlbase + "_UHD.jpg"@
}

/// An archive entry's picture is its URL base followed by `_UHD.jpg`, joined
/// onto `https://bing.com/`.
pub proof fn lemma_uhd_path_text(urlbase: Seq<char>)
    ensures
        uhd_path(urlbase) == urlbase + "_UHD.jpg"@,
        BING_BASE_URL@ == "https://bing.com/"@,
{
}

/// The full picture URLs for the archive entries, in order, or `None` when any
/// of them does not form a URL.
pub fn image_urls(base: &str, urlbases: &Vec<String>) -> (urls: Option<VecDeque<String>>)
    ensures
        urls is Some <==> forall|i: int|
            0 <= i < urlbases@.len() ==> #[trigger] joined_url(base@, uhd_path(urlbases@[i]@))
                is Some,
        urls matches Some(v) ==> v@.len() == urlbases@.len() && forall|i: int|
            0 <= i < urlbases@.len() ==> Some(#[trigger] v@[i]@) == joined_url(
                base@,
                uhd_path(urlbases@[i]@),
            ),
{
    let mut urls: VecDeque<String> = VecDeque::new();
    let mut i: usize = 0;
    while i < urlbases.len()
        invariant
            i <= urlbases@.len(),
            urls@.len() == i,
            forall|j: int|
                0 <= j < i ==> #[trigger] joined_url(base@, uhd_path(urlbases@[j]@)) is Some,
            forall|j: int|
                0 <= j < i ==> Some(#[trigger] urls@[j]@) == joined_url(
                    base@,
                    uhd_path(urlbases@[j]@),
                ),
        decreases urlbases@.len() - i,
    {
        let relative = urlbases[i].clone().concat("_UHD.jpg");
        assert(relative@ == uhd_path(urlbases@[i as int]@));
        match url_join(base, relative.as_str()) {
            Some(u) => {
                urls.push_back(u);
            },
            None => {
                assert(joined_url(base@, uhd_path(urlbases@[i as int]@)) is None);
                return None;
            },
        }
        i = i + 1;
    }
    Some(urls)
}

} // verus!
