//! Playback metadata and the store that guards it.
//!
//! The store enforces the precedence rule of the control surface: an explicit
//! metadata update always wins, while the automatic title-update path never
//! clobbers a title that is already non-empty.

use vstd::prelude::*;

verus! {

/// Playback metadata as shared with the session host.
#[derive(Debug, PartialEq, Eq)]
pub struct Metadata {
    pub title: String,
    pub artist: String,
    pub album: String,
}

/// The mathematical value of a `Metadata`: its three fields as character
/// sequences.
pub ghost struct MetadataView {
    pub title: Seq<char>,
    pub artist: Seq<char>,
    pub album: Seq<char>,
}

impl View for Metadata {
    type V = MetadataView;

    open spec fn view(&self) -> MetadataView {
        MetadataView { title: self.title@, artist: self.artist@, album: self.album@ }
    }
}

impl Clone for Metadata {
    fn clone(&self) -> (r: Self)
        ensures
            r@ == self@,
    {
        Metadata {
            title: self.title.clone(),
            artist: self.artist.clone(),
            album: self.album.clone(),
        }
    }
}

/// The value of an optional `Metadata`.
pub open spec fn opt_metadata_view(m: Option<Metadata>) -> Option<MetadataView> {
    match m {
        None => None,
        Some(x) => Some(x@),
    }
}

/// What an explicit metadata update stores: an absent candidate gives fresh
/// metadata titled with the fallback, and a candidate with an empty title
/// falls back likewise; any other candidate is stored as given.
pub open spec fn resolved_metadata(
    candidate: Option<MetadataView>,
    fallback_title: Seq<char>,
) -> MetadataView {
    match candidate {
        None => MetadataView {
            title: fallback_title,
            artist: Seq::empty(),
            album: Seq::empty(),
        },
        Some(c) => MetadataView {
            title: if c.title.len() == 0 {
                fallback_title
            } else {
                c.title
            },
            artist: c.artist,
            album: c.album,
        },
    }
}

/// What the automatic title-update path stores: `None` when it must not touch
/// the metadata (a non-empty title is already set), otherwise the metadata
/// that results.
pub open spec fn auto_title_update(
    current: Option<MetadataView>,
    title: Seq<char>,
) -> Option<MetadataView> {
    match current {
        Some(m) => if m.title.len() > 0 {
            None
        } else {
            Some(MetadataView { title, artist: m.artist, album: m.album })
        },
        None => Some(MetadataView { title, artist: Seq::empty(), album: Seq::empty() }),
    }
}

/// Holds the session's optional metadata.
pub struct MetadataStore {
    pub current: Option<Metadata>,
}

impl View for MetadataStore {
    type V = Option<MetadataView>;

    open spec fn view(&self) -> Option<MetadataView> {
        opt_metadata_view(self.current)
    }
}

impl MetadataStore {
    /// A store that never saw a metadata update.
    pub fn new() -> (r: MetadataStore)
        ensures
            r@ is None,
    {
        MetadataStore { current: None }
    }

    /// A snapshot of the current metadata, or `None` when never set.
    pub fn get(&self) -> (r: Option<Metadata>)
        ensures
            r is Some <==> self@ is Some,
            r matches Some(m) ==> Some(m@) == self@,
    {
        match &self.current {
            Some(m) => Some(m.clone()),
            None => None,
        }
    }

    /// Apply an explicit metadata update: it overwrites unconditionally, with
    /// an absent candidate or an empty candidate title replaced from the
    /// fallback title. Returns a snapshot of what was stored, for the caller
    /// to announce.
    pub fn set(&mut self, candidate: Option<Metadata>, fallback_title: &str) -> (stored: Metadata)
        ensures
            stored@ == resolved_metadata(opt_metadata_view(candidate), fallback_title@),
            final(self)@ == Some(stored@),
    {
        let stored = match candidate {
            Some(c) => {
                let title: String = if c.title.as_str().is_empty() {
                    fallback_title.to_owned()
                } else {
                    c.title
                };
                Metadata { title, artist: c.artist, album: c.album }
            },
            None => Metadata {
                title: fallback_title.to_owned(),
                artist: String::new(),
                album: String::new(),
            },
        };
        self.current = Some(stored.clone());
        stored
    }

    /// Apply the automatic title-update path: create metadata when none
    /// exists, fill in an empty title, and otherwise change nothing. Returns
    /// a snapshot of the new metadata when something changed, for the caller
    /// to announce, and `None` on the no-op.
    pub fn update_title_from_player(&mut self, title: String) -> (changed: Option<Metadata>)
        ensures
            match auto_title_update(old(self)@, title@) {
                None => final(self)@ == old(self)@ && changed is None,
                Some(v) => final(self)@ == Some(v) && (changed matches Some(c) && c@ == v),
            },
    {
        match self.current.take() {
            Some(mut m) => {
                if !m.title.as_str().is_empty() {
                    self.current = Some(m);
                    None
                } else {
                    m.title = title;
                    let snapshot = m.clone();
                    self.current = Some(m);
                    Some(snapshot)
                }
            },
            None => {
                let m = Metadata { title, artist: String::new(), album: String::new() };
                let snapshot = m.clone();
                self.current = Some(m);
                Some(snapshot)
            },
        }
    }
}

/// Law: an explicit update with a non-empty fallback title always leaves a
/// non-empty title behind, so the automatic title-update path that follows it
/// is a no-op.
pub proof fn lemma_explicit_set_blocks_auto_update(
    candidate: Option<MetadataView>,
    fallback_title: Seq<char>,
    auto_title: Seq<char>,
)
    requires
        fallback_title.len() > 0,
    ensures
        resolved_metadata(candidate, fallback_title).title.len() > 0,
        auto_title_update(Some(resolved_metadata(candidate, fallback_title)), auto_title) is None,
{
}

/// Law: an explicit update with an absent candidate stores fresh metadata
/// whose title is exactly the fallback title.
pub proof fn lemma_cleared_metadata_uses_fallback(fallback_title: Seq<char>)
    ensures
        resolved_metadata(None, fallback_title) == (MetadataView {
            title: fallback_title,
            artist: Seq::<char>::empty(),
            album: Seq::<char>::empty(),
        }),
{
}

} // verus!
