use std::collections::HashMap;
use vstd::prelude::*;
use vstd::std_specs::hash::*;

verus! {

/// A skin of a player profile.
#[derive(Debug, Clone, PartialEq, Eq)]
pub struct MinecraftSkin {
    pub id: u128,
    pub name: String,
    pub src: String,
    /// Whether the profile wears this skin.
    pub current: bool,
}

/// The mathematical value of a [`MinecraftSkin`].
pub struct MinecraftSkinView {
    pub id: u128,
    pub name: Seq<char>,
    pub src: Seq<char>,
    pub current: bool,
}

impl View for MinecraftSkin {
    type V = MinecraftSkinView;

    open spec fn view(&self) -> MinecraftSkinView {
        MinecraftSkinView { id: self.id, name: self.name@, src: self.src@, current: self.current }
    }
}

impl DeepView for MinecraftSkin {
    type V = MinecraftSkinView;

    open spec fn deep_view(&self) -> MinecraftSkinView {
        self@
    }
}

impl MinecraftSkin {
    /// A copy of the skin.
    pub fn duplicate(&self) -> (r: MinecraftSkin)
        ensures
            r@ == self@,
    {
        MinecraftSkin {
            id: self.id,
            name: self.name.clone(),
            src: self.src.clone(),
            current: self.current,
        }
    }
}

/// Why an operation on the skin store failed.
#[derive(Debug, Clone, Copy, PartialEq, Eq, Structural)]
pub enum SkinError {
    /// The profile has no library of skins.
    ProfileNotFound,
    /// The profile has no skin with this identifier.
    SkinNotFound,
    /// A skin was to be worn by a profile that has no library.
    SavingFailed,
    /// A skin was to be removed from a profile that has no library.
    RemovingFailed,
    /// The current skin was asked of a profile that has no library.
    NoCurrentSkin,
}

impl SkinError {
    /// The message of the error.
    pub fn message(&self) -> (r: &'static str)
        ensures
            r@ == match self {
                SkinError::ProfileNotFound => "Profile not found"@,
                SkinError::SkinNotFound => "Skin not found"@,
                SkinError::SavingFailed => "Error saving skin"@,
                SkinError::RemovingFailed => "Error removing skin"@,
                SkinError::NoCurrentSkin => "Error getting current skin"@,
            },
    {
        match self {
            SkinError::ProfileNotFound => "Profile not found",
            SkinError::SkinNotFound => "Skin not found",
            SkinError::SavingFailed => "Error saving skin",
            SkinError::RemovingFailed => "Error removing skin",
            SkinError::NoCurrentSkin => "Error getting current skin",
        }
    }
}

/// The position of the first skin with this identifier at or behind `from`.
pub open spec fn position_of(skins: Seq<MinecraftSkinView>, id: u128, from: int) -> Option<int>
    decreases skins.len() - from,
{
    if from < 0 || from >= skins.len() {
        None
    } else if skins[from].id == id {
        Some(from)
    } else {
        position_of(skins, id, from + 1)
    }
}

/// The position of the first skin that is worn, at or behind `from`.
pub open spec fn current_position(skins: Seq<MinecraftSkinView>, from: int) -> Option<int>
    decreases skins.len() - from,
{
    if from < 0 || from >= skins.len() {
        None
    } else if skins[from].current {
        Some(from)
    } else {
        current_position(skins, from + 1)
    }
}

/// The skins with the one at `worn` marked as worn and every other as not worn.
pub open spec fn wearing(skins: Seq<MinecraftSkinView>, worn: int) -> Seq<MinecraftSkinView> {
    Seq::new(
        skins.len(),
        |i: int|
            MinecraftSkinView {
                id: skins[i].id,
                name: skins[i].name,
                src: skins[i].src,
                current: i == worn,
            },
    )
}

/// What [`position_of`] finds is a skin with the identifier, and no skin
/// between `from` and it has the identifier.
pub proof fn lemma_position_of(skins: Seq<MinecraftSkinView>, id: u128, from: int)
    requires
        0 <= from,
    ensures
        match position_of(skins, id, from) {
            Some(at) => from <= at < skins.len() && skins[at].id == id && forall|j: int|
                from <= j < at ==> (#[trigger] skins[j]).id != id,
            None => forall|j: int| from <= j < skins.len() ==> (#[trigger] skins[j]).id != id,
        },
    decreases skins.len() - from,
{
    if from < skins.len() && skins[from].id != id {
        lemma_position_of(skins, id, from + 1);
    }
}

/// The library of the last entry of this profile.
pub open spec fn latest(libraries: Seq<(u128, Seq<MinecraftSkinView>)>, profile_id: u128) -> Option<
    Seq<MinecraftSkinView>,
>
    decreases libraries.len(),
{
    if libraries.len() == 0 {
        None
    } else if libraries.last().0 == profile_id {
        Some(libraries.last().1)
    } else {
        latest(libraries.drop_last(), profile_id)
    }
}

/// A copy of a list of skins.
pub fn copy_skins(skins: &Vec<MinecraftSkin>) -> (r: Vec<MinecraftSkin>)
    ensures
        r.deep_view() == skins.deep_view(),
{
    let mut out: Vec<MinecraftSkin> = Vec::new();
    let mut i: usize = 0;
    while i < skins.len()
        invariant
            i <= skins.len(),
            out.len() == i,
            forall|j: int| 0 <= j < i ==> (#[trigger] out[j])@ == skins[j]@,
        decreases skins.len() - i,
    {
        out.push(skins[i].duplicate());
        i += 1;
    }
    out
}

/// Finds the first skin with this identifier.
pub fn find_skin(skins: &Vec<MinecraftSkin>, id: u128) -> (r: Option<usize>)
    ensures
        match r {
            Some(at) => position_of(skins.deep_view(), id, 0) == Some(at as int),
            None => position_of(skins.deep_view(), id, 0) is None,
        },
{
    let ghost sv = skins.deep_view();
    let mut i: usize = 0;
    while i < skins.len()
        invariant
            i <= skins.len(),
            sv == skins.deep_view(),
            position_of(sv, id, 0) == position_of(sv, id, i as int),
        decreases skins.len() - i,
    {
        if skins[i].id == id {
            return Some(i);
        }
        i += 1;
    }
    None
}

/// Finds the first skin that is worn.
pub fn find_current(skins: &Vec<MinecraftSkin>) -> (r: Option<usize>)
    ensures
        match r {
            Some(at) => current_position(skins.deep_view(), 0) == Some(at as int),
            None => current_position(skins.deep_view(), 0) is None,
        },
{
    let ghost sv = skins.deep_view();
    let mut i: usize = 0;
    while i < skins.len()
        invariant
            i <= skins.len(),
            sv == skins.deep_view(),
            current_position(sv, 0) == current_position(sv, i as int),
        decreases skins.len() - i,
    {
        if skins[i].current {
            return Some(i);
        }
        i += 1;
    }
    None
}

/// The skins of all profiles, by profile identifier.
#[derive(Debug, Clone)]
pub struct SkinController {
    pub skins: HashMap<u128, Vec<MinecraftSkin>>,
}

impl SkinController {
    /// Whether a profile has a library of skins.
    pub open spec fn has_profile(&self, profile_id: u128) -> bool {
        self.skins@.contains_key(profile_id)
    }

    /// The skins of a profile that has a library.
    pub open spec fn library(&self, profile_id: u128) -> Seq<MinecraftSkinView> {
        self.skins@[profile_id].deep_view()
    }

    /// Whether two stores hold the same libraries but for one profile.
    pub open spec fn same_but(&self, other: &SkinController, profile_id: u128) -> bool {
        forall|p: u128|
            p != profile_id ==> (self.skins@.contains_key(p) <==> other.skins@.contains_key(p)) && (
            self.skins@.contains_key(p) ==> #[trigger] self.skins@[p] == other.skins@[p])
    }

    /// The store of these libraries; of two libraries of one profile the
    /// later counts.
    pub fn initialize(libraries: &Vec<(u128, Vec<MinecraftSkin>)>) -> (r: SkinController)
        ensures
            forall|p: u128|
                match #[trigger] latest(libraries.deep_view(), p) {
                    Some(skins) => r.has_profile(p) && r.library(p) == skins,
                    None => !r.has_profile(p),
                },
    {
        broadcast use group_hash_axioms;

        let ghost lv = libraries.deep_view();
        let mut store = SkinController::new();
        let mut i: usize = 0;
        while i < libraries.len()
            invariant
                i <= libraries.len(),
                lv == libraries.deep_view(),
                forall|p: u128|
                    match #[trigger] latest(lv.take(i as int), p) {
                        Some(skins) => store.has_profile(p) && store.library(p) == skins,
                        None => !store.has_profile(p),
                    },
            decreases libraries.len() - i,
        {
            proof {
                assert(lv.take(i + 1).drop_last() =~= lv.take(i as int));
            }
            store.set_library(libraries[i].0, copy_skins(&libraries[i].1));
            proof {
                assert forall|p: u128|
                    match #[trigger] latest(lv.take(i + 1), p) {
                        Some(skins) => store.has_profile(p) && store.library(p) == skins,
                        None => !store.has_profile(p),
                    } by {
                    if p != libraries[i as int].0 {
                        assert(latest(lv.take(i + 1), p) == latest(lv.take(i as int), p));
                    }
                }
            }
            i += 1;
        }
        assert(lv.take(libraries.len() as int) =~= lv);
        store
    }

    /// A store without profiles.
    pub fn new() -> (r: SkinController)
        ensures
            forall|p: u128| !r.has_profile(p),
    {
        SkinController { skins: HashMap::new() }
    }

    /// The libraries of all profiles.
    pub fn get_skins(&self) -> (r: HashMap<u128, Vec<MinecraftSkin>>)
        ensures
            r@ == self.skins@,
    {
        self.skins.clone()
    }

    /// Gives a profile an empty library, in place of the one that it may have.
    pub fn add_profile(&mut self, profile_id: u128)
        ensures
            final(self).has_profile(profile_id),
            final(self).library(profile_id) == Seq::<MinecraftSkinView>::empty(),
            final(self).same_but(old(self), profile_id),
    {
        broadcast use group_hash_axioms;

        let empty: Vec<MinecraftSkin> = Vec::new();
        self.skins.insert(profile_id, empty);
    }

    /// Gives a profile this library, in place of the one that it may have.
    pub fn set_library(&mut self, profile_id: u128, skins: Vec<MinecraftSkin>)
        ensures
            final(self).skins@ == old(self).skins@.insert(profile_id, skins),
            final(self).has_profile(profile_id),
            final(self).library(profile_id) == skins.deep_view(),
            final(self).same_but(old(self), profile_id),
    {
        broadcast use group_hash_axioms;

        self.skins.insert(profile_id, skins);
    }

    /// The skins of a profile.
    pub fn get_profile_skins(&self, profile_id: u128) -> (r: Result<Vec<MinecraftSkin>, SkinError>)
        ensures
            match r {
                Ok(skins) => self.has_profile(profile_id) && skins.deep_view() == self.library(
                    profile_id,
                ),
                Err(e) => !self.has_profile(profile_id) && e == SkinError::ProfileNotFound,
            },
    {
        broadcast use group_hash_axioms;

        match self.skins.get(&profile_id) {
            Some(skins) => Ok(copy_skins(skins)),
            None => Err(SkinError::ProfileNotFound),
        }
    }

    /// The first skin of a profile with this identifier.
    pub fn get_skin(&self, profile_id: u128, uuid: u128) -> (r: Result<MinecraftSkin, SkinError>)
        ensures
            match r {
                Ok(skin) => {
                    &&& self.has_profile(profile_id)
                    &&& position_of(self.library(profile_id), uuid, 0) matches Some(at) && skin@
                        == self.library(profile_id)[at]
                },
                Err(e) => e == SkinError::SkinNotFound && (!self.has_profile(profile_id)
                    || position_of(self.library(profile_id), uuid, 0) is None),
            },
    {
        broadcast use group_hash_axioms;

        match self.skins.get(&profile_id) {
            Some(skins) => match find_skin(skins, uuid) {
                Some(at) => {
                    proof {
                        lemma_position_of(skins.deep_view(), uuid, 0);
                    }
                    Ok(skins[at].duplicate())
                },
                None => Err(SkinError::SkinNotFound),
            },
            None => Err(SkinError::SkinNotFound),
        }
    }

    /// Adds a skin to the end of the library of a profile.
    pub fn add_skin(&mut self, profile_id: u128, skin: MinecraftSkin)
        requires
            old(self).has_profile(profile_id),
        ensures
            final(self).has_profile(profile_id),
            final(self).library(profile_id) == old(self).library(profile_id).push(skin@),
            final(self).same_but(old(self), profile_id),
    {
        broadcast use group_hash_axioms;

        match self.skins.remove(&profile_id) {
            Some(skins) => {
                let mut skins = skins;
                skins.push(skin);
                self.skins.insert(profile_id, skins);
            },
            None => {},
        }
    }

    /// Makes a profile wear the first skin of its library that has the
    /// identifier of `skin`, and no other. The store is unchanged where
    /// this fails.
    pub fn set_skin(&mut self, profile_id: u128, skin: &MinecraftSkin) -> (r: Result<(), SkinError>)
        ensures
            match r {
                Ok(_) => {
                    &&& old(self).has_profile(profile_id)
                    &&& final(self).has_profile(profile_id)
                    &&& final(self).same_but(old(self), profile_id)
                    &&& position_of(old(self).library(profile_id), skin.id, 0) matches Some(at)
                        && final(self).library(profile_id) == wearing(
                        old(self).library(profile_id),
                        at,
                    )
                },
                Err(e) => *final(self) == *old(self) && if old(self).has_profile(profile_id) {
                    e == SkinError::SkinNotFound && position_of(
                        old(self).library(profile_id),
                        skin.id,
                        0,
                    ) is None
                } else {
                    e == SkinError::SavingFailed
                },
            },
    {
        broadcast use group_hash_axioms;

        let worn = match self.skins.get(&profile_id) {
            Some(skins) => match find_skin(skins, skin.id) {
                Some(at) => {
                    let mut out: Vec<MinecraftSkin> = Vec::new();
                    let mut i: usize = 0;
                    while i < skins.len()
                        invariant
                            i <= skins.len(),
                            out.len() == i,
                            forall|j: int|
                                0 <= j < i ==> (#[trigger] out[j])@ == (MinecraftSkinView {
                                    id: skins[j].id,
                                    name: skins[j].name@,
                                    src: skins[j].src@,
                                    current: j == at,
                                }),
                        decreases skins.len() - i,
                    {
                        out.push(
                            MinecraftSkin {
                                id: skins[i].id,
                                name: skins[i].name.clone(),
                                src: skins[i].src.clone(),
                                current: i == at,
                            },
                        );
                        i += 1;
                    }
                    out
                },
                None => {
                    return Err(SkinError::SkinNotFound);
                },
            },
            None => {
                return Err(SkinError::SavingFailed);
            },
        };
        self.skins.insert(profile_id, worn);
        Ok(())
    }

    /// Removes the first skin with this identifier from the library of a
    /// profile. The store is unchanged where this fails.
    pub fn remove_skin(&mut self, profile_id: u128, uuid: u128) -> (r: Result<(), SkinError>)
        ensures
            match r {
                Ok(_) => {
                    &&& old(self).has_profile(profile_id)
                    &&& final(self).has_profile(profile_id)
                    &&& final(self).same_but(old(self), profile_id)
                    &&& position_of(old(self).library(profile_id), uuid, 0) matches Some(at)
                        && final(self).library(profile_id) == old(self).library(profile_id).remove(
                        at,
                    )
                },
                Err(e) => *final(self) == *old(self) && if old(self).has_profile(profile_id) {
                    e == SkinError::SkinNotFound && position_of(
                        old(self).library(profile_id),
                        uuid,
                        0,
                    ) is None
                } else {
                    e == SkinError::RemovingFailed
                },
            },
    {
        broadcast use group_hash_axioms;

        let at = match self.skins.get(&profile_id) {
            Some(skins) => match find_skin(skins, uuid) {
                Some(at) => {
                    proof {
                        lemma_position_of(skins.deep_view(), uuid, 0);
                    }
                    at
                },
                None => {
                    return Err(SkinError::SkinNotFound);
                },
            },
            None => {
                return Err(SkinError::RemovingFailed);
            },
        };
        match self.skins.remove(&profile_id) {
            Some(skins) => {
                let mut skins = skins;
                skins.remove(at);
                self.skins.insert(profile_id, skins);
            },
            None => {},
        }
        Ok(())
    }

    /// The first skin of a profile that is worn, if there is one.
    pub fn get_current_skin(&self, profile_id: u128) -> (r: Result<
        Option<MinecraftSkin>,
        SkinError,
    >)
        ensures
            match r {
                Ok(Some(skin)) => {
                    &&& self.has_profile(profile_id)
                    &&& current_position(self.library(profile_id), 0) matches Some(at) && 0 <= at
                        < self.library(profile_id).len() && skin@ == self.library(profile_id)[at]
                },
                Ok(None) => self.has_profile(profile_id) && current_position(
                    self.library(profile_id),
                    0,
                ) is None,
                Err(e) => !self.has_profile(profile_id) && e == SkinError::NoCurrentSkin,
            },
    {
        broadcast use group_hash_axioms;

        match self.skins.get(&profile_id) {
            Some(skins) => match find_current(skins) {
                Some(at) => {
                    proof {
                        lemma_current_position(skins.deep_view(), 0);
                    }
                    Ok(Some(skins[at].duplicate()))
                },
                None => Ok(None),
            },
            None => Err(SkinError::NoCurrentSkin),
        }
    }
}

/// What [`current_position`] finds is a skin that is worn, and no skin
/// between `from` and it is worn.
pub proof fn lemma_current_position(skins: Seq<MinecraftSkinView>, from: int)
    requires
        0 <= from,
    ensures
        match current_position(skins, from) {
            Some(at) => from <= at < skins.len() && skins[at].current && forall|j: int|
                from <= j < at ==> !(#[trigger] skins[j]).current,
            None => forall|j: int| from <= j < skins.len() ==> !(#[trigger] skins[j]).current,
        },
    decreases skins.len() - from,
{
    if from < skins.len() && !skins[from].current {
        lemma_current_position(skins, from + 1);
    }
}

} // verus!
