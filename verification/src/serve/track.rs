//! The writing end of a track, as a subscription feeds it.

use bytes::Bytes;
use vstd::prelude::*;

use super::error::{ServeError, ServeFault};
use crate::coding::buffer::bytes_contents;
use crate::coding::kvp::Pair;
use crate::coding::{TrackName, TrackNamespace};
use crate::data::ExtensionHeaders;

verus! {

/// The name of a track together with its namespace.
#[derive(Debug, PartialEq, Eq, Hash)]
pub struct FullTrackName {
    pub namespace: TrackNamespace,
    pub name: TrackName,
}

/// The model of a [`FullTrackName`].
pub struct FullName {
    pub namespace: Seq<Seq<u8>>,
    pub name: Seq<u8>,
}

impl View for FullTrackName {
    type V = FullName;

    open spec fn view(&self) -> FullName {
        FullName { namespace: self.namespace@, name: self.name@ }
    }
}

impl Clone for FullTrackName {
    fn clone(&self) -> (copy: Self)
        ensures
            copy@ == self@,
    {
        FullTrackName { namespace: self.namespace.clone(), name: self.name.clone() }
    }
}

impl FullTrackName {
    /// Whether two names are the same.
    pub fn same(&self, other: &FullTrackName) -> (same: bool)
        ensures
            same == (self@ == other@),
    {
        self.namespace.same(&other.namespace) && self.name.same(&other.name)
    }
}

/// A subgroup of a track.
#[derive(Clone, Copy, Debug, PartialEq, Eq, Structural)]
pub struct Subgroup {
    pub group_id: u64,
    pub subgroup_id: u64,
    pub priority: u8,
    pub first_object: bool,
}

/// An object that is sent on its own.
#[derive(Debug, PartialEq, Eq)]
pub struct Datagram {
    pub group_id: u64,
    pub object_id: u64,
    pub priority: u8,
    pub payload: Bytes,
    pub extension_headers: ExtensionHeaders,
}

/// The model of a [`Datagram`].
pub struct DatagramView {
    pub group_id: u64,
    pub object_id: u64,
    pub priority: u8,
    pub payload: Seq<u8>,
    pub extension_headers: Seq<Pair>,
}

impl View for Datagram {
    type V = DatagramView;

    open spec fn view(&self) -> DatagramView {
        DatagramView {
            group_id: self.group_id,
            object_id: self.object_id,
            priority: self.priority,
            payload: bytes_contents(self.payload),
            extension_headers: self.extension_headers@,
        }
    }
}

/// A track that nothing has been written to yet. Writing works while the
/// track is live, that is while someone reads it.
#[derive(Debug)]
pub struct TrackWriter {
    pub namespace: TrackNamespace,
    pub name: TrackName,
    pub live: bool,
}

/// A track that is written by subgroups.
#[derive(Debug)]
pub struct SubgroupsWriter {
    pub live: bool,
}

/// A track that is written by datagrams.
#[derive(Debug)]
pub struct DatagramsWriter {
    pub live: bool,
    /// The datagrams that were written and not yet taken.
    pub written: Vec<Datagram>,
}

/// A subgroup that is being written.
#[derive(Clone, Copy, Debug, PartialEq, Eq, Structural)]
pub struct SubgroupWriter {
    pub info: Subgroup,
}

/// How a track is written. The first write decides.
#[derive(Debug)]
pub enum TrackWriterMode {
    Track(TrackWriter),
    Subgroups(SubgroupsWriter),
    Datagrams(DatagramsWriter),
}

/// The model of a [`TrackWriterMode`].
pub enum WriterView {
    Track { live: bool },
    Subgroups { live: bool },
    Datagrams { live: bool, written: Seq<DatagramView> },
}

impl View for TrackWriterMode {
    type V = WriterView;

    open spec fn view(&self) -> WriterView {
        match self {
            TrackWriterMode::Track(track) => WriterView::Track { live: track.live },
            TrackWriterMode::Subgroups(writer) => WriterView::Subgroups {
                live: writer.live,
            },
            TrackWriterMode::Datagrams(writer) => WriterView::Datagrams {
                live: writer.live,
                written: writer.written@.map_values(|datagram: Datagram| datagram@),
            },
        }
    }
}

impl WriterView {
    /// The writer once nobody reads the track any more.
    pub open spec fn unread(self) -> WriterView {
        match self {
            WriterView::Track { .. } => WriterView::Track { live: false },
            WriterView::Subgroups { .. } => WriterView::Subgroups { live: false },
            WriterView::Datagrams { written, .. } => WriterView::Datagrams { live: false, written },
        }
    }

    /// The datagrams that its readers have not taken yet.
    pub open spec fn untaken(self) -> Seq<DatagramView> {
        match self {
            WriterView::Datagrams { written, .. } => written,
            _ => Seq::empty(),
        }
    }

    /// The writer once its readers took all datagrams.
    pub open spec fn taken(self) -> WriterView {
        match self {
            WriterView::Datagrams { live, .. } => WriterView::Datagrams {
                live,
                written: Seq::empty(),
            },
            other => other,
        }
    }

    pub open spec fn live(self) -> bool {
        match self {
            WriterView::Track { live } => live,
            WriterView::Subgroups { live, .. } => live,
            WriterView::Datagrams { live, .. } => live,
        }
    }
}

impl TrackWriter {
    pub fn new(namespace: TrackNamespace, name: TrackName) -> (track: Self)
        ensures
            track.namespace@ == namespace@,
            track.name@ == name@,
            track.live,
    {
        TrackWriter { namespace, name, live: true }
    }

    /// Starts writing by subgroups.
    pub fn subgroups(self) -> (result: Result<SubgroupsWriter, ServeError>)
        ensures
            match result {
                Ok(writer) => self.live && writer.live,
                Err(error) => !self.live && error@ == ServeFault::Cancel,
            },
    {
        if self.live {
            Ok(SubgroupsWriter { live: true })
        } else {
            Err(ServeError::Cancel)
        }
    }

    /// Starts writing by datagrams.
    pub fn datagrams(self) -> (result: Result<DatagramsWriter, ServeError>)
        ensures
            match result {
                Ok(writer) => self.live && writer.live && writer.written@.len() == 0,
                Err(error) => !self.live && error@ == ServeFault::Cancel,
            },
    {
        if self.live {
            Ok(DatagramsWriter { live: true, written: Vec::new() })
        } else {
            Err(ServeError::Cancel)
        }
    }
}

impl SubgroupsWriter {
    /// Creates a subgroup. Its objects are handed to the track's readers by
    /// whoever writes them.
    pub fn create(&self, subgroup: Subgroup) -> (result: Result<SubgroupWriter, ServeError>)
        ensures
            match result {
                Ok(writer) => self.live && writer.info == subgroup,
                Err(error) => !self.live && error@ == ServeFault::Cancel,
            },
    {
        if !self.live {
            return Err(ServeError::Cancel);
        }
        Ok(SubgroupWriter { info: subgroup })
    }
}

impl DatagramsWriter {
    /// Hands the readers the datagrams that were written, oldest first.
    pub fn take(&mut self) -> (datagrams: Vec<Datagram>)
        ensures
            datagrams@ == old(self).written@,
            final(self).live == old(self).live,
            final(self).written@.len() == 0,
    {
        let mut datagrams: Vec<Datagram> = Vec::new();
        std::mem::swap(&mut datagrams, &mut self.written);
        datagrams
    }

    /// Writes a datagram.
    pub fn write(&mut self, datagram: Datagram) -> (result: Result<(), ServeError>)
        ensures
            final(self).live == old(self).live,
            match result {
                Ok(()) => {
                    &&& old(self).live
                    &&& final(self).written@ == old(self).written@.push(datagram)
                },
                Err(error) => {
                    &&& !old(self).live
                    &&& error@ == ServeFault::Cancel
                    &&& final(self).written@ == old(self).written@
                },
            },
    {
        if !self.live {
            return Err(ServeError::Cancel);
        }
        self.written.push(datagram);
        Ok(())
    }
}

impl TrackWriterMode {
    /// Nobody reads the track any more.
    pub fn readers_gone(&mut self)
        ensures
            final(self)@ == old(self)@.unread(),
    {
        match self {
            TrackWriterMode::Track(track) => {
                track.live = false;
            },
            TrackWriterMode::Subgroups(writer) => {
                writer.live = false;
            },
            TrackWriterMode::Datagrams(writer) => {
                writer.live = false;
            },
        }
    }

    /// Ends the track and hands on the cause that its readers are told. A
    /// track that nobody reads cannot be told anything.
    pub fn close(self, cause: ServeError) -> (result: Result<ServeError, ServeError>)
        ensures
            match result {
                Ok(told) => self@.live() && told@ == cause@,
                Err(error) => !self@.live() && error@ == ServeFault::Cancel,
            },
    {
        let live = match &self {
            TrackWriterMode::Track(track) => track.live,
            TrackWriterMode::Subgroups(writer) => writer.live,
            TrackWriterMode::Datagrams(writer) => writer.live,
        };
        if live {
            Ok(cause)
        } else {
            Err(ServeError::Cancel)
        }
    }
}

} // verus!
