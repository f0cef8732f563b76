//! Plain data carried around the application root: runtime error notes,
//! the cursor cache the renderer reads, options, and the values handed to
//! and from the persistence collaborator at startup and shutdown.

use vstd::prelude::*;

use crate::data::dirset::LinkDirSet;
use crate::data::link::Link;

verus! {

/// Messages of the runtime failures the collaborators reported; `None`
/// where the step succeeded.
pub struct RuntimeError {
    /// Set when reading the persisted data failed.
    pub read_data: Option<String>,
    /// Set when saving failed.
    pub save: Option<String>,
    /// Set when writing the chosen link failed.
    pub write_link: Option<String>,
}

impl RuntimeError {
    pub fn new() -> (r: Self)
        ensures
            r.read_data is None,
            r.save is None,
            r.write_link is None,
    {
        Self { read_data: None, save: None, write_link: None }
    }

    pub fn with_read_data(self, err: String) -> (r: Self)
        ensures
            r == (RuntimeError { read_data: Some(err), ..self }),
    {
        Self { read_data: Some(err), ..self }
    }

    pub fn with_save(self, err: String) -> (r: Self)
        ensures
            r == (RuntimeError { save: Some(err), ..self }),
    {
        Self { save: Some(err), ..self }
    }

    pub fn with_write_link(self, err: String) -> (r: Self)
        ensures
            r == (RuntimeError { write_link: Some(err), ..self }),
    {
        Self { write_link: Some(err), ..self }
    }
}

/// Whether the last text-cursor position handed to the renderer is still
/// current, and where it was.
#[derive(Clone, Copy)]
pub struct CursorCache {
    pub outdated: bool,
    pub pos: (u16, u16),
}

impl CursorCache {
    pub fn new() -> (r: Self)
        ensures
            r.outdated,
            r.pos == (0u16, 0u16),
    {
        Self { outdated: true, pos: (0, 0) }
    }

    /// Records a freshly computed cursor position.
    pub fn update(&mut self, x: u16, y: u16)
        ensures
            *final(self) == (CursorCache { outdated: false, pos: (x, y) }),
    {
        self.pos = (x, y);
        self.outdated = false;
    }

    /// The position, if it is still current.
    pub fn get_pos(&self) -> (r: Option<(u16, u16)>)
        ensures
            r == if self.outdated {
                Option::<(u16, u16)>::None
            } else {
                Option::<(u16, u16)>::Some(self.pos)
            },
    {
        if self.outdated {
            None
        } else {
            Some(self.pos)
        }
    }

    /// Marks the cached position stale.
    pub fn outdate(&mut self)
        ensures
            *final(self) == (CursorCache { outdated: true, ..*old(self) }),
    {
        self.outdated = true;
    }

    pub fn is_outdated(&self) -> (r: bool)
        ensures
            r == self.outdated,
    {
        self.outdated
    }
}

/// Per-frame state owned by the application root and threaded to the
/// renderer.
pub struct AppData {
    pub cursor: CursorCache,
}

impl AppData {
    pub fn new() -> (r: Self)
        ensures
            r.cursor == CursorCache::new_spec(),
    {
        Self { cursor: CursorCache::new() }
    }
}

impl CursorCache {
    /// The value [`CursorCache::new`] returns.
    pub open spec fn new_spec() -> CursorCache {
        CursorCache { outdated: true, pos: (0u16, 0u16) }
    }
}

/// Whether the collection should be written back at shutdown.
pub struct AppOption {
    pub save: bool,
}

/// What the command line asked for.
pub struct Config {
    /// Where to write the chosen link's path, if anywhere.
    pub path: Option<String>,
    /// Whether to save the collection at shutdown.
    pub save: bool,
}

/// The values that cross the boundary to the persistence collaborator at
/// shutdown: the chosen link, the configuration, and the data to write.
pub struct DataTransfer {
    pub link: Option<Link>,
    pub config: Option<Config>,
    pub data: Option<LinkDirSet>,
}

impl DataTransfer {
    pub fn new() -> (r: Self)
        ensures
            r.link is None,
            r.config is None,
            r.data is None,
    {
        Self { link: None, config: None, data: None }
    }

    /// A transfer that carries a chosen link and nothing else.
    pub fn with_link(link: Link) -> (r: Self)
        ensures
            r.link matches Some(l) && l == link,
            r.config is None,
            r.data is None,
    {
        Self { link: Some(link), config: None, data: None }
    }

    /// A transfer that carries an output path and nothing else.
    pub fn with_path(path: String) -> (r: Self)
        ensures
            r.link is None,
            r.config matches Some(c) && c.path == Some(path) && c.save,
            r.data is None,
    {
        Self { link: None, config: Some(Config { path: Some(path), save: true }), data: None }
    }

    pub fn link(&self) -> (r: Option<&Link>)
        ensures
            r matches Some(l) ==> self.link matches Some(l2) && l == l2,
            r is None <==> self.link is None,
    {
        self.link.as_ref()
    }

    pub fn config(&self) -> (r: Option<&Config>)
        ensures
            r matches Some(c) ==> self.config matches Some(c2) && c == c2,
            r is None <==> self.config is None,
    {
        self.config.as_ref()
    }
}

} // verus!
