//! The catalogue queries of the server: browsing a source and finding a manga
//! by its path in a source, which is first looked up among the stored mangas and
//! else fetched from the source and stored.
use vstd::prelude::*;

verus! {

/// What a source's mangas are sorted by, the same for every source.
#[derive(Clone, Copy, Debug, PartialEq, Eq, Structural)]
pub enum SortByParam {
    LastUpdated,
    Title,
    Comment,
    Views,
}

/// The order of a source's mangas, the same for every source.
#[derive(Clone, Copy, Debug, PartialEq, Eq, Structural)]
pub enum SortOrderParam {
    Asc,
    Desc,
}

/// The root of the catalogue queries.
#[derive(Clone, Copy, Debug, PartialEq, Eq, Structural)]
pub struct CatalogueRoot {}

/// How a manga was found: already stored, or fetched from the source and then
/// stored under the given id.
#[derive(Clone, Debug, PartialEq, Eq)]
pub enum Resolved<M> {
    Stored(M),
    Inserted(M, i64),
}

/// Where a lookup of a manga by source and path stands.
pub enum LookupStage<M> {
    /// The stored mangas are being searched.
    SearchingStored,
    /// The source is being asked.
    Fetching,
    /// The fetched manga is being stored.
    Storing(M),
    /// The lookup has ended.
    Done,
}

/// What the lookup asks for next.
#[derive(Debug, PartialEq, Eq)]
pub enum LookupAction<M> {
    /// Ask the source (by the lookup's source id and path) for the manga.
    FetchFromSource,
    /// Store the fetched manga, which the lookup holds (`pending`).
    Store,
    /// Answer the query.
    Answer(Result<Resolved<M>, String>),
}

/// The outcome of a step of the lookup, as the caller reports it.
pub enum LookupEvent<M> {
    /// The stored mangas were searched; this one was found, if any.
    StoredManga(Option<M>),
    /// The source answered: the manga, or why it could not (`no source` when no
    /// source has the id).
    Fetched(Result<M, String>),
    /// The manga was stored under this id, or why it could not be.
    Inserted(Result<i64, String>),
}

/// A lookup of a manga by source and path.
pub struct SourcePathLookup<M> {
    pub stage: LookupStage<M>,
}

/// What the lookup does in `stage` on `event`: the stage it moves to and its
/// next action; none when the event does not belong to the stage.
pub open spec fn lookup_step<M>(
    stage: LookupStage<M>,
    event: LookupEvent<M>,
) -> Option<(LookupStage<M>, LookupAction<M>)> {
    match (stage, event) {
        (LookupStage::SearchingStored, LookupEvent::StoredManga(found)) => match found {
            Some(m) => Some((LookupStage::Done, LookupAction::Answer(Ok(Resolved::Stored(m))))),
            None => Some((LookupStage::Fetching, LookupAction::FetchFromSource)),
        },
        (LookupStage::Fetching, LookupEvent::Fetched(r)) => match r {
            Ok(m) => Some((LookupStage::Storing(m), LookupAction::Store)),
            Err(e) => Some((LookupStage::Done, LookupAction::Answer(Err(e)))),
        },
        (LookupStage::Storing(m), LookupEvent::Inserted(r)) => match r {
            Ok(id) => Some((LookupStage::Done, LookupAction::Answer(Ok(Resolved::Inserted(m, id))))),
            Err(e) => Some((LookupStage::Done, LookupAction::Answer(Err(e)))),
        },
        _ => None,
    }
}

/// The message of the error for a source id that no source has.
pub fn no_source_error() -> (e: String)
    ensures
        e@ == "no source"@,
{
    String::from_str("no source")
}

impl<M> SourcePathLookup<M> {
    /// A lookup that starts by searching the stored mangas.
    pub fn start() -> (l: SourcePathLookup<M>)
        ensures
            l.stage is SearchingStored,
    {
        SourcePathLookup { stage: LookupStage::SearchingStored }
    }

    /// The fetched manga that is to be stored, while it is.
    pub fn pending(&self) -> (m: Option<&M>)
        ensures
            match self.stage {
                LookupStage::Storing(p) => m == Some(&p),
                _ => m is None,
            },
    {
        match &self.stage {
            LookupStage::Storing(p) => Some(p),
            _ => None,
        }
    }

    /// Takes the outcome of the last action; returns the next action, or none
    /// (and stays where it is) when the outcome does not belong to the stage.
    pub fn step(&mut self, event: LookupEvent<M>) -> (a: Option<LookupAction<M>>)
        ensures
            match lookup_step(old(self).stage, event) {
                Some((stage, action)) => final(self).stage == stage && a == Some(action),
                None => final(self).stage == old(self).stage && a is None,
            },
    {
        let mut stage = LookupStage::Done;
        std::mem::swap(&mut stage, &mut self.stage);
        match (stage, event) {
            (LookupStage::SearchingStored, LookupEvent::StoredManga(found)) => match found {
                Some(m) => Some(LookupAction::Answer(Ok(Resolved::Stored(m)))),
                None => {
                    self.stage = LookupStage::Fetching;
                    Some(LookupAction::FetchFromSource)
                },
            },
            (LookupStage::Fetching, LookupEvent::Fetched(r)) => match r {
                Ok(m) => {
                    self.stage = LookupStage::Storing(m);
                    Some(LookupAction::Store)
                },
                Err(e) => Some(LookupAction::Answer(Err(e))),
            },
            (LookupStage::Storing(m), LookupEvent::Inserted(r)) => match r {
                Ok(id) => Some(LookupAction::Answer(Ok(Resolved::Inserted(m, id)))),
                Err(e) => Some(LookupAction::Answer(Err(e))),
            },
            (stage, _) => {
                self.stage = stage;
                None
            },
        }
    }
}


/// A stored manga is answered as it is and nothing is fetched or stored; a
/// manga that is not stored is fetched, stored, and answered with the id it was
/// stored under; every failure is answered with its message.
pub proof fn lemma_lookup_paths<M>(found: Option<M>, fetched: Result<M, String>, inserted: Result<i64, String>)
    ensures
        match found {
            Some(m) => lookup_step(LookupStage::SearchingStored, LookupEvent::StoredManga(found))
                == Some((LookupStage::<M>::Done, LookupAction::Answer(Ok(Resolved::Stored(m))))),
            None => {
                let (s1, a1) = lookup_step(
                    LookupStage::SearchingStored,
                    LookupEvent::StoredManga(found),
                )->0;
                &&& a1 == LookupAction::<M>::FetchFromSource
                &&& match fetched {
                    Err(e) => lookup_step(s1, LookupEvent::Fetched(fetched)) == Some(
                        (LookupStage::<M>::Done, LookupAction::<M>::Answer(Err(e))),
                    ),
                    Ok(m) => {
                        let (s2, a2) = lookup_step(s1, LookupEvent::Fetched(fetched))->0;
                        &&& a2 == LookupAction::<M>::Store
                        &&& lookup_step(s2, LookupEvent::Inserted(inserted)) == Some(
                            (
                                LookupStage::<M>::Done,
                                LookupAction::Answer(
                                    match inserted {
                                        Ok(id) => Ok(Resolved::Inserted(m, id)),
                                        Err(e) => Err(e),
                                    },
                                ),
                            ),
                        )
                    },
                }
            },
        },
{
}

} // verus!
