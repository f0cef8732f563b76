//! The application root: one value owning the base state, the data, the
//! options, the per-frame cache, and the float stack.

pub mod data;

use vstd::prelude::*;

use crate::app::data::{AppData, AppOption, CursorCache, RuntimeError};
use crate::data::dirset::LinkDirSet;
use crate::float::warning::{CorruptDataWarningChoice, CorruptDataWarningState};
use crate::float::{float_wf, is_delete_confirm, Float, FloatActionResult};
use crate::state::folder::FolderNormalState;
use crate::state::{AppState, NormalState};

verus! {

/// The floats an optional float contributes to the stack.
pub open spec fn opt_float_seq(f: Option<Float>) -> Seq<Float> {
    match f {
        Some(x) => seq![x],
        None => Seq::<Float>::empty(),
    }
}

/// The application root. All mutation passes through the one live value of
/// this type; handlers receive it by exclusive reference.
pub struct App {
    pub state: AppState,
    pub data: LinkDirSet,
    pub option: AppOption,
    pub cache: AppData,
    pub float: Vec<Float>,
}

impl App {
    /// The float stack, bottom first; the last element is the top and sole
    /// input recipient.
    pub open spec fn spec_floats(&self) -> Seq<Float> {
        self.float@
    }

    /// The base state's indices lie within the data: an active link view
    /// is scoped to a folder that exists.
    pub open spec fn state_wf(&self) -> bool {
        crate::state::app_state_wf(self.state, self.data@)
    }

    /// Every float's indices lie within the data.
    pub open spec fn floats_wf(&self) -> bool {
        forall|i: int|
            0 <= i < self.spec_floats().len() ==> float_wf(
                #[trigger] self.spec_floats()[i],
                self.data@,
            )
    }

    /// A delete confirmation, which defers a removal, is only ever the sole
    /// float: nothing that could go stale sits beneath it.
    pub open spec fn delete_confirm_alone(&self) -> bool {
        forall|i: int|
            0 <= i < self.spec_floats().len() && is_delete_confirm(
                #[trigger] self.spec_floats()[i],
            ) ==> self.spec_floats().len() == 1
    }

    /// The whole application's invariant: well-formed data, and a base
    /// state and float stack consistent with it.
    pub open spec fn wf(&self) -> bool {
        &&& self.data.wf()
        &&& self.state_wf()
        &&& self.floats_wf()
        &&& self.delete_confirm_alone()
    }

    /// A fresh application over loaded data: the folder view, an empty
    /// float stack, saving enabled.
    pub fn new(data: LinkDirSet) -> (r: Self)
        requires
            data.wf(),
        ensures
            r.state == AppState::Normal(NormalState::Folder(FolderNormalState { selected: Some(0usize) })),
            r.data == data,
            r.option.save,
            r.cache.cursor == CursorCache::new_spec(),
            r.spec_floats() == Seq::<Float>::empty(),
            r.wf(),
    {
        let r = Self {
            state: AppState::new(),
            data,
            float: Vec::new(),
            cache: AppData::new(),
            option: AppOption { save: true },
        };
        proof {
            assert(r.spec_floats() =~= Seq::<Float>::empty());
        }
        r
    }

    pub fn set_state(&mut self, state: AppState)
        ensures
            final(self).state == state,
            final(self).data == old(self).data,
            final(self).option == old(self).option,
            final(self).cache == old(self).cache,
            final(self).spec_floats() == old(self).spec_floats(),
    {
        self.state = state;
    }

    /// Pops the top float, the sole input recipient, if any.
    pub fn get_float(&mut self) -> (r: Option<Float>)
        ensures
            old(self).spec_floats().len() == 0 ==> r is None
                && final(self).spec_floats() == old(self).spec_floats(),
            old(self).spec_floats().len() > 0 ==> r == Some(old(self).spec_floats().last())
                && final(self).spec_floats() == old(self).spec_floats().drop_last(),
            final(self).state == old(self).state,
            final(self).data == old(self).data,
            final(self).option == old(self).option,
            final(self).cache == old(self).cache,
    {
        self.float.pop()
    }

    /// Pushes a float on top of the stack.
    pub fn add_float(&mut self, float: Float)
        ensures
            final(self).spec_floats() == old(self).spec_floats().push(float),
            final(self).state == old(self).state,
            final(self).data == old(self).data,
            final(self).option == old(self).option,
            final(self).cache == old(self).cache,
    {
        self.float.push(float);
    }

    /// Pushes a handler's result back: first the handled float, then the
    /// newly spawned one on top.
    pub fn extend_float(&mut self, floats: FloatActionResult)
        ensures
            final(self).spec_floats() == old(self).spec_floats() + opt_float_seq(floats.primary)
                + opt_float_seq(floats.new),
            final(self).state == old(self).state,
            final(self).data == old(self).data,
            final(self).option == old(self).option,
            final(self).cache == old(self).cache,
    {
        let ghost floats0 = self.float@;
        if let Some(f) = floats.primary {
            self.float.push(f);
        }
        if let Some(f) = floats.new {
            self.float.push(f);
        }
        proof {
            assert(self.float@ =~= floats0 + opt_float_seq(floats.primary) + opt_float_seq(
                floats.new,
            ));
        }
    }

    /// Read access to the whole stack, for the renderer.
    pub fn inspect_floats(&self) -> (r: &Vec<Float>)
        ensures
            r@ == self.spec_floats(),
    {
        &self.float
    }

    /// Surfaces a startup read failure once: saving is suppressed and the
    /// corrupt-data dialog becomes the sole float, with `Exit` preselected;
    /// the error note is consumed.
    pub fn check_corrept_data(&mut self, error: &mut RuntimeError)
        ensures
            old(error).read_data matches Some(msg) ==> !final(self).option.save
                && final(self).spec_floats() == old(self).spec_floats().push(
                Float::CorruptDataWarning(
                    CorruptDataWarningState { choice: CorruptDataWarningChoice::Exit, message: msg },
                ),
            ) && final(error).read_data is None,
            old(error).read_data is None ==> *final(self) == *old(self)
                && *final(error) == *old(error),
            final(self).state == old(self).state,
            final(self).data == old(self).data,
            final(self).cache == old(self).cache,
            final(error).save == old(error).save,
            final(error).write_link == old(error).write_link,
            old(self).wf() && old(self).spec_floats().len() == 0 ==> final(self).wf(),
    {
        match error.read_data.take() {
            Some(msg) => {
                self.option.save = false;
                self.float.push(Float::CorruptDataWarning(CorruptDataWarningState::new(msg)));
            },
            None => {},
        }
    }
}

} // verus!
