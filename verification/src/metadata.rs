//! The record that a successful lookup gives.

use crate::error::Error;
use crate::fields::{ResponseFields, ResponseFieldsView};
use crate::status::{parse_status, Status};
use crate::text::views;
use vstd::prelude::*;

verus! {

/// Distro's Metadata.
///
/// A value is always fully populated: where the catalog's answer lacks a
/// member, no value is made.
#[derive(Debug, Clone, PartialEq)]
pub struct DistroMetadata {
    name: String,
    based_on: Vec<String>,
    origin: String,
    architecture: Vec<String>,
    desktop: Vec<String>,
    category: Vec<String>,
    status: Status,
    popularity: String,
}

/// [`DistroMetadata`] as mathematical values.
pub struct DistroMetadataView {
    pub name: Seq<char>,
    pub based_on: Seq<Seq<char>>,
    pub origin: Seq<char>,
    pub architecture: Seq<Seq<char>>,
    pub desktop: Seq<Seq<char>>,
    pub category: Seq<Seq<char>>,
    pub status: Status,
    pub popularity: Seq<char>,
}

impl View for DistroMetadata {
    type V = DistroMetadataView;

    closed spec fn view(&self) -> DistroMetadataView {
        DistroMetadataView {
            name: self.name@,
            based_on: views(self.based_on@),
            origin: self.origin@,
            architecture: views(self.architecture@),
            desktop: views(self.desktop@),
            category: views(self.category@),
            status: self.status,
            popularity: self.popularity@,
        }
    }
}

/// The record that the members `fields` give for the distro asked for as
/// `name`: there is one where every member was found and the status text
/// begins with a status keyword. The name is the one asked for; the other
/// fields are the members as found, the status parsed.
pub open spec fn assembled(name: Seq<char>, fields: ResponseFieldsView) -> Option<
    DistroMetadataView,
> {
    if fields.is_complete() {
        match parse_status(fields.status.unwrap()) {
            Some(status) => Some(
                DistroMetadataView {
                    name,
                    based_on: fields.based_ons.unwrap(),
                    origin: fields.origin.unwrap(),
                    architecture: fields.architectures.unwrap(),
                    desktop: fields.desktop_environments.unwrap(),
                    category: fields.categories.unwrap(),
                    status,
                    popularity: fields.popularity.unwrap(),
                },
            ),
            None => None,
        }
    } else {
        None
    }
}

impl DistroMetadata {
    /// Makes the record for the distro asked for as `name` from the members
    /// of the catalog's answer, or fails with
    /// [`Error::DistroWatchApiChanged`] where a member is missing or the
    /// status text begins with no status keyword.
    pub fn from_fields(name: &str, fields: ResponseFields) -> (made: Result<DistroMetadata, Error>)
        ensures
            match assembled(name@, fields@) {
                Some(record) => made matches Ok(metadata) && metadata@ == record,
                None => made == Err::<DistroMetadata, Error>(Error::DistroWatchApiChanged),
            },
    {
        let based_on = match fields.based_ons {
            Some(list) => list,
            None => { return Err(Error::DistroWatchApiChanged); },
        };
        let origin = match fields.origin {
            Some(text) => text,
            None => { return Err(Error::DistroWatchApiChanged); },
        };
        let architecture = match fields.architectures {
            Some(list) => list,
            None => { return Err(Error::DistroWatchApiChanged); },
        };
        let desktop = match fields.desktop_environments {
            Some(list) => list,
            None => { return Err(Error::DistroWatchApiChanged); },
        };
        let category = match fields.categories {
            Some(list) => list,
            None => { return Err(Error::DistroWatchApiChanged); },
        };
        let status_text = match fields.status {
            Some(text) => text,
            None => { return Err(Error::DistroWatchApiChanged); },
        };
        let status = match Status::from_str(status_text.as_str()) {
            Ok(status) => status,
            Err(_) => { return Err(Error::DistroWatchApiChanged); },
        };
        let popularity = match fields.popularity {
            Some(text) => text,
            None => { return Err(Error::DistroWatchApiChanged); },
        };
        Ok(
            DistroMetadata {
                name: name.to_owned(),
                based_on,
                origin,
                architecture,
                desktop,
                category,
                status,
                popularity,
            },
        )
    }

    /// Distro's name: the one that the lookup asked for.
    pub fn name(&self) -> (name: &String)
        ensures
            name@ == self@.name,
    {
        &self.name
    }

    /// Which distros is this distro based on.
    pub fn based_on(&self) -> (based_on: &Vec<String>)
        ensures
            views(based_on@) == self@.based_on,
    {
        &self.based_on
    }

    /// Origin of this distro.
    pub fn origin(&self) -> (origin: &String)
        ensures
            origin@ == self@.origin,
    {
        &self.origin
    }

    /// CPU architectures supported by this distro.
    pub fn architecture(&self) -> (architecture: &Vec<String>)
        ensures
            views(architecture@) == self@.architecture,
    {
        &self.architecture
    }

    /// Desktop Environments supported by this distro.
    pub fn desktop(&self) -> (desktop: &Vec<String>)
        ensures
            views(desktop@) == self@.desktop,
    {
        &self.desktop
    }

    /// What categories does this distro belong to.
    pub fn category(&self) -> (category: &Vec<String>)
        ensures
            views(category@) == self@.category,
    {
        &self.category
    }

    /// Distro's status.
    pub fn status(&self) -> (status: &Status)
        ensures
            *status == self@.status,
    {
        &self.status
    }

    /// Popularity level of this distro.
    pub fn popularity(&self) -> (popularity: &String)
        ensures
            popularity@ == self@.popularity,
    {
        &self.popularity
    }
}

} // verus!
