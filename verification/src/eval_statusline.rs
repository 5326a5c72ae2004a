//! Options for the editor's statusline evaluation call, with their
//! conversion to the C-compatible key/value record.
//!
//! `EvalStatuslineOpts` is a plain bag of optional settings, filled in
//! through `EvalStatuslineOptsBuilder`; every setter records exactly one
//! field and `build` copies the fields over, so building can never fail.
//! `KeyDict_eval_statusline` is the record shape the editor's API expects,
//! each field an `Object` produced by the conversions of [`crate::object`].

use crate::object::{
    kind_of,
    obj_of_opt_bool,
    obj_of_opt_i32,
    obj_of_opt_u32,
    object_from_opt_bool,
    object_from_opt_char,
    object_from_opt_i32,
    object_from_opt_u32,
    str_chars_of,
    ObjKind,
};
use vstd::prelude::*;

verus! {

/// A window of the editor, identified by its numeric handle.
#[derive(Clone, Copy, Debug, PartialEq, Eq, Structural)]
pub struct Window(pub i32);

/// Options passed to the editor's statusline evaluation call. A field left
/// at `None` asks the editor for its default behaviour.
#[derive(Clone, Debug)]
pub struct EvalStatuslineOpts {
    /// Character used to fill blank spaces in the statusline.
    pub fillchar: Option<char>,
    /// Also return highlight information.
    pub highlights: Option<bool>,
    /// Maximum width for the statusline.
    pub maxwidth: Option<u32>,
    /// Evaluate the tabline instead of the statusline. When `true` the
    /// `window` field is ignored.
    pub use_tabline: Option<bool>,
    /// Evaluate the winbar instead of the statusline. Mutually exclusive
    /// with `use_tabline`.
    pub use_winbar: Option<bool>,
    /// Window to use as context for the statusline.
    pub window: Option<Window>,
}

/// Builder for [`EvalStatuslineOpts`]: starts with every field unset, each
/// setter fills in one field, and [`EvalStatuslineOptsBuilder::build`]
/// always succeeds.
#[derive(Clone, Debug)]
pub struct EvalStatuslineOptsBuilder {
    pub fillchar: Option<char>,
    pub highlights: Option<bool>,
    pub maxwidth: Option<u32>,
    pub use_tabline: Option<bool>,
    pub use_winbar: Option<bool>,
    pub window: Option<Window>,
}

impl EvalStatuslineOpts {
    /// Creates a new [`EvalStatuslineOptsBuilder`] with every field unset.
    pub fn builder() -> (b: EvalStatuslineOptsBuilder)
        ensures
            b.fillchar is None,
            b.highlights is None,
            b.maxwidth is None,
            b.use_tabline is None,
            b.use_winbar is None,
            b.window is None,
    {
        EvalStatuslineOptsBuilder {
            fillchar: None,
            highlights: None,
            maxwidth: None,
            use_tabline: None,
            use_winbar: None,
            window: None,
        }
    }
}

impl Default for EvalStatuslineOpts {
    /// The default options leave every field unset.
    fn default() -> (opts: Self)
        ensures
            opts.fillchar is None,
            opts.highlights is None,
            opts.maxwidth is None,
            opts.use_tabline is None,
            opts.use_winbar is None,
            opts.window is None,
    {
        EvalStatuslineOpts {
            fillchar: None,
            highlights: None,
            maxwidth: None,
            use_tabline: None,
            use_winbar: None,
            window: None,
        }
    }
}

impl EvalStatuslineOptsBuilder {
    /// Character used to fill blank spaces in the statusline.
    pub fn fillchar(self, fillchar: char) -> (r: Self)
        ensures
            r == (EvalStatuslineOptsBuilder { fillchar: Some(fillchar), ..self }),
    {
        EvalStatuslineOptsBuilder { fillchar: Some(fillchar), ..self }
    }

    /// Also return highlight information.
    pub fn highlights(self, highlights: bool) -> (r: Self)
        ensures
            r == (EvalStatuslineOptsBuilder { highlights: Some(highlights), ..self }),
    {
        EvalStatuslineOptsBuilder { highlights: Some(highlights), ..self }
    }

    /// Maximum width for the statusline.
    pub fn maxwidth(self, maxwidth: u32) -> (r: Self)
        ensures
            r == (EvalStatuslineOptsBuilder { maxwidth: Some(maxwidth), ..self }),
    {
        EvalStatuslineOptsBuilder { maxwidth: Some(maxwidth), ..self }
    }

    /// Evaluate the tabline instead of the statusline.
    pub fn use_tabline(self, use_tabline: bool) -> (r: Self)
        ensures
            r == (EvalStatuslineOptsBuilder { use_tabline: Some(use_tabline), ..self }),
    {
        EvalStatuslineOptsBuilder { use_tabline: Some(use_tabline), ..self }
    }

    /// Evaluate the winbar instead of the statusline.
    pub fn use_winbar(self, use_winbar: bool) -> (r: Self)
        ensures
            r == (EvalStatuslineOptsBuilder { use_winbar: Some(use_winbar), ..self }),
    {
        EvalStatuslineOptsBuilder { use_winbar: Some(use_winbar), ..self }
    }

    /// Window to use as context for the statusline.
    pub fn window(self, window: Window) -> (r: Self)
        ensures
            r == (EvalStatuslineOptsBuilder { window: Some(window), ..self }),
    {
        EvalStatuslineOptsBuilder { window: Some(window), ..self }
    }

    /// Copies the fields gathered so far into an [`EvalStatuslineOpts`].
    /// Never fails: every field has a default. The builder stays as it was
    /// and can build again.
    pub fn build(&mut self) -> (opts: EvalStatuslineOpts)
        ensures
            *final(self) == *old(self),
            opts.fillchar == old(self).fillchar,
            opts.highlights == old(self).highlights,
            opts.maxwidth == old(self).maxwidth,
            opts.use_tabline == old(self).use_tabline,
            opts.use_winbar == old(self).use_winbar,
            opts.window == old(self).window,
    {
        EvalStatuslineOpts {
            fillchar: self.fillchar,
            highlights: self.highlights,
            maxwidth: self.maxwidth,
            use_tabline: self.use_tabline,
            use_winbar: self.use_winbar,
            window: self.window,
        }
    }
}

/// The statusline options in the key/value record shape the editor's C API
/// expects, each field encoded as an `Object`.
#[allow(non_camel_case_types)]
pub struct KeyDict_eval_statusline {
    pub winid: nvim_types::Object,
    pub fillchar: nvim_types::Object,
    pub maxwidth: nvim_types::Object,
    pub highlights: nvim_types::Object,
    pub use_winbar: nvim_types::Object,
    pub use_tabline: nvim_types::Object,
}

/// The window context encoded for the key/value record: the window's
/// numeric handle as an integer object, or nil when no window was chosen.
pub open spec fn winid_obj(window: Option<Window>) -> nvim_types::Object {
    match window {
        Some(w) => obj_of_opt_i32(Some(w.0)),
        None => obj_of_opt_i32(None),
    }
}

impl KeyDict_eval_statusline {
    /// Encodes the options as the key/value record, field by field: unset
    /// options become nil objects, set ones the matching typed object. The
    /// fill character becomes a string object backed by a fresh allocation,
    /// so that field is pinned by its kind tag and its character content
    /// rather than by one object value.
    pub fn from(opts: &EvalStatuslineOpts) -> (r: Self)
        ensures
            r.winid == winid_obj(opts.window),
            kind_of(r.winid) == (if opts.window is Some {
                ObjKind::Integer
            } else {
                ObjKind::Nil
            }),
            kind_of(r.fillchar) == (if opts.fillchar is Some {
                ObjKind::Str
            } else {
                ObjKind::Nil
            }),
            opts.fillchar matches Some(ch) ==> str_chars_of(r.fillchar) == seq![ch],
            r.maxwidth == obj_of_opt_u32(opts.maxwidth),
            kind_of(r.maxwidth) == (if opts.maxwidth is Some {
                ObjKind::Integer
            } else {
                ObjKind::Nil
            }),
            r.highlights == obj_of_opt_bool(opts.highlights),
            kind_of(r.highlights) == (if opts.highlights is Some {
                ObjKind::Boolean
            } else {
                ObjKind::Nil
            }),
            r.use_winbar == obj_of_opt_bool(opts.use_winbar),
            kind_of(r.use_winbar) == (if opts.use_winbar is Some {
                ObjKind::Boolean
            } else {
                ObjKind::Nil
            }),
            r.use_tabline == obj_of_opt_bool(opts.use_tabline),
            kind_of(r.use_tabline) == (if opts.use_tabline is Some {
                ObjKind::Boolean
            } else {
                ObjKind::Nil
            }),
    {
        let winid = match opts.window {
            Some(w) => object_from_opt_i32(Some(w.0)),
            None => object_from_opt_i32(None),
        };
        KeyDict_eval_statusline {
            winid,
            fillchar: object_from_opt_char(opts.fillchar),
            maxwidth: object_from_opt_u32(opts.maxwidth),
            highlights: object_from_opt_bool(opts.highlights),
            use_winbar: object_from_opt_bool(opts.use_winbar),
            use_tabline: object_from_opt_bool(opts.use_tabline),
        }
    }
}

} // verus!
