//! The hooks of a state, and what every hook is handed.

use vstd::prelude::*;

use crate::event::Event;
use crate::storage::to_json;
use crate::storage::StorageError;
use crate::storage::StoredText;
use crate::storage::STORAGE_KEY;
use crate::transition::StateTransition;

verus! {

/// An application: the long-lived object that every hook can reach, and the
/// types through which it meets its host.
pub trait Game: Sized {
    /// The value kept from run to run.
    type Storage;

    /// How the host writes a time span or a ratio.
    type Scalar: Copy;

    /// How the host writes a position.
    type Point;

    /// The host's handle to the rendering surface.
    type Surface;

    /// The host's handle to the audio subsystem.
    type Sound;
}

/// What a hook is handed: the measures of the current frame, the host's
/// handles, the stored value and the application object. It is made anew
/// for every frame.
pub struct Context<'a, G: Game> {
    delta_time: G::Scalar,
    rem_to_px: G::Scalar,
    surface: G::Surface,
    sound_context: G::Sound,
    storage: &'a mut G::Storage,
    pub game: &'a mut G,
}

impl<'a, G: Game> Context<'a, G> {
    /// The time that has passed since the frame before.
    pub closed spec fn elapsed(&self) -> G::Scalar {
        self.delta_time
    }

    /// How many pixels make one rem.
    pub closed spec fn ratio(&self) -> G::Scalar {
        self.rem_to_px
    }

    pub closed spec fn surface_handle(&self) -> G::Surface {
        self.surface
    }

    pub closed spec fn sound_handle(&self) -> G::Sound {
        self.sound_context
    }

    /// The stored value as it is now.
    pub closed spec fn stored(&self) -> G::Storage {
        *self.storage
    }

    /// The application object as it is now.
    pub closed spec fn application(&self) -> G {
        *self.game
    }

    pub fn new(
        delta_time: G::Scalar,
        rem_to_px: G::Scalar,
        surface: G::Surface,
        sound_context: G::Sound,
        storage: &'a mut G::Storage,
        game: &'a mut G,
    ) -> (r: Self)
        ensures
            r.elapsed() == delta_time,
            r.ratio() == rem_to_px,
            r.surface_handle() == surface,
            r.sound_handle() == sound_context,
            r.stored() == *old(storage),
            r.application() == *old(game),
    {
        Context { delta_time, rem_to_px, surface, sound_context, storage, game }
    }

    pub fn delta_time(&self) -> (r: G::Scalar)
        ensures
            r == self.elapsed(),
    {
        self.delta_time
    }

    /// The factor that turns a length in rem into pixels.
    pub fn rem_ratio(&self) -> (r: G::Scalar)
        ensures
            r == self.ratio(),
    {
        self.rem_to_px
    }

    pub fn surface(&self) -> (r: &G::Surface)
        ensures
            *r == self.surface_handle(),
    {
        &self.surface
    }

    pub fn sound_context_mut(&self) -> (r: &G::Sound)
        ensures
            *r == self.sound_handle(),
    {
        &self.sound_context
    }

    pub fn storage(&self) -> (r: &G::Storage)
        ensures
            *r == self.stored(),
    {
        &*self.storage
    }

    /// Puts `new_storage` in place of the stored value and hands back the
    /// text that the host has to write for it. A value that cannot be
    /// encoded is turned down: the stored value stays and there is nothing
    /// to write (see [`Context::store_encoded`], which is handed the outcome
    /// of the encoding).
    pub fn set_storage(&mut self, new_storage: G::Storage) -> (r: Result<StoredText, StorageError>) where
        G::Storage: serde::Serialize,

        ensures
            r matches Ok(written) ==> written.key@ == STORAGE_KEY@ && final(self).stored()
                == new_storage,
            r is Err ==> final(self).stored() == old(self).stored(),
            final(self).application() == old(self).application(),
            final(self).elapsed() == old(self).elapsed(),
            final(self).ratio() == old(self).ratio(),
            final(self).surface_handle() == old(self).surface_handle(),
            final(self).sound_handle() == old(self).sound_handle(),
    {
        let encoded = to_json(&new_storage);
        self.store_encoded(new_storage, encoded)
    }

    /// Stores `new_storage`, given the outcome of encoding it. Where that is
    /// a text, `new_storage` is put in place of the stored value and the
    /// text is handed back with the key to write it under; where it is an
    /// error, the stored value stays and the error is that the value cannot
    /// be written.
    pub fn store_encoded<E>(&mut self, new_storage: G::Storage, encoded: Result<String, E>) -> (r:
        Result<StoredText, StorageError>)
        ensures
            encoded matches Ok(text) ==> r == Ok::<StoredText, StorageError>(
                StoredText { key: STORAGE_KEY, text },
            ) && final(self).stored() == new_storage,
            encoded is Err ==> r == Err::<StoredText, StorageError>(StorageError::Unserializable)
                && final(self).stored() == old(self).stored(),
            final(self).application() == old(self).application(),
            final(self).elapsed() == old(self).elapsed(),
            final(self).ratio() == old(self).ratio(),
            final(self).surface_handle() == old(self).surface_handle(),
            final(self).sound_handle() == old(self).sound_handle(),
    {
        match encoded {
            Ok(text) => {
                *self.storage = new_storage;
                Ok(StoredText { key: STORAGE_KEY, text })
            },
            Err(_) => Err(StorageError::Unserializable),
        }
    }
}

/// A screen or mode of an application, with its four hooks. Every hook may
/// ask for a transition.
///
/// Beside each hook stands what the state says of it: a relation between
/// what the hook is called with and what it leaves and answers. A state that
/// says nothing leaves all of that open. The functions that call the hooks
/// state what they do in these relations.
pub trait GameState<G: Game>: Sized {
    /// What the state says of `on_pushed`: whether, called on `before` with
    /// `given`, it may leave `after` and `left` and answer `asked`.
    open spec fn entered<'a>(
        before: Self,
        given: Context<'a, G>,
        after: Self,
        left: Context<'a, G>,
        asked: StateTransition<Self>,
    ) -> bool {
        true
    }

    /// What the state says of `on_event`: whether, called on `before` with
    /// `event` and `given`, it may leave `after` and `left` and answer
    /// `asked`.
    open spec fn handled<'a>(
        before: Self,
        given: Context<'a, G>,
        event: Event<G::Point>,
        after: Self,
        left: Context<'a, G>,
        asked: StateTransition<Self>,
    ) -> bool {
        true
    }

    /// What the state says of `on_update`: whether, called on `before` with
    /// `given`, it may leave `after` and `left` and answer `asked`.
    open spec fn updated<'a>(
        before: Self,
        given: Context<'a, G>,
        after: Self,
        left: Context<'a, G>,
        asked: StateTransition<Self>,
    ) -> bool {
        true
    }

    /// What the state says of `on_popped`: whether, called on `before` with
    /// `given`, it may leave `left` and answer `asked`.
    open spec fn exited<'a>(
        before: Self,
        given: Context<'a, G>,
        left: Context<'a, G>,
        asked: StateTransition<Self>,
    ) -> bool {
        true
    }

    /// Called once when the state has become the active one.
    fn on_pushed(&mut self, context: &mut Context<G>) -> (asked: StateTransition<Self>)
        ensures
            Self::entered(*old(self), *old(context), *final(self), *final(context), asked),
    ;

    /// Called for every event that is delivered while the state is active.
    fn on_event(&mut self, event: Event<G::Point>, context: &mut Context<G>) -> (asked:
        StateTransition<Self>)
        ensures
            Self::handled(*old(self), *old(context), event, *final(self), *final(context), asked),
    ;

    /// Called once per frame, after the events, while the state is active.
    fn on_update(&mut self, context: &mut Context<G>) -> (asked: StateTransition<Self>)
        ensures
            Self::updated(*old(self), *old(context), *final(self), *final(context), asked),
    ;

    /// Called once when the state has been taken off the stack. The state is
    /// given away with the call, so no hook can be called on it again.
    fn on_popped(self, context: &mut Context<G>) -> (asked: StateTransition<Self>)
        ensures
            Self::exited(self, *old(context), *final(context), asked),
    ;
}

} // verus!
