//! A loaded algorithm: what its module declared, where it came from, and the
//! instance that runs it.

use crate::registration::DataLength;
use crate::text::{quote_text, quoted};
use vstd::prelude::*;
use vstd::string::StringExecFns;

verus! {

/// An admitted algorithm. `I` is the running instance together with whatever
/// keeps it alive; the library never looks inside it.
pub struct Algorithm<I> {
    name: String,
    description: String,
    min_data_length: DataLength,
    max_data_length: DataLength,
    path: String,
    instance: I,
}

impl<I> Algorithm<I> {
    /// The declared name.
    pub closed spec fn name_text(&self) -> Seq<char> {
        self.name@
    }

    /// The declared description.
    pub closed spec fn description_text(&self) -> Seq<char> {
        self.description@
    }

    /// The declared minimum of price history.
    pub closed spec fn min_length(&self) -> DataLength {
        self.min_data_length
    }

    /// The declared maximum of price history.
    pub closed spec fn max_length(&self) -> DataLength {
        self.max_data_length
    }

    /// The resolved path of the module.
    pub closed spec fn path_text(&self) -> Seq<char> {
        self.path@
    }

    /// The running instance.
    pub closed spec fn held_instance(&self) -> I {
        self.instance
    }

    /// Bundles a module's declarations with its path and its instance.
    pub(crate) fn assemble(
        name: String,
        description: String,
        min_data_length: DataLength,
        max_data_length: DataLength,
        path: String,
        instance: I,
    ) -> (algorithm: Self)
        ensures
            algorithm.name_text() == name@,
            algorithm.description_text() == description@,
            algorithm.min_length() == min_data_length,
            algorithm.max_length() == max_data_length,
            algorithm.path_text() == path@,
            algorithm.held_instance() == instance,
    {
        Algorithm { name, description, min_data_length, max_data_length, path, instance }
    }

    pub fn name(&self) -> (name: &str)
        ensures
            name@ == self.name_text(),
    {
        self.name.as_str()
    }

    pub fn description(&self) -> (description: &str)
        ensures
            description@ == self.description_text(),
    {
        self.description.as_str()
    }

    pub fn min_data_length(&self) -> (length: DataLength)
        ensures
            length == self.min_length(),
    {
        self.min_data_length
    }

    pub fn max_data_length(&self) -> (length: DataLength)
        ensures
            length == self.max_length(),
    {
        self.max_data_length
    }

    pub fn path(&self) -> (path: &str)
        ensures
            path@ == self.path_text(),
    {
        self.path.as_str()
    }

    /// The algorithm as text, given its path between quotation marks: name
    /// and path, the two bounds, the description.
    pub open spec fn text_around(&self, quoted_path: Seq<char>) -> Seq<char> {
        self.name_text() + " ("@ + quoted_path + ")\n\nminimal data length: "@
            + self.min_length().text() + "\nmaximal data length: "@ + self.max_length().text()
            + "\n\n"@ + self.description_text()
    }

    /// The algorithm as text: name and quoted path, the two bounds, the
    /// description.
    pub open spec fn text(&self) -> Seq<char> {
        self.text_around(quoted(self.path_text()))
    }

    /// Writes the algorithm as text around a path that has been quoted.
    pub fn compose_text(&self, quoted_path: &str) -> (out: String)
        ensures
            out@ == self.text_around(quoted_path@),
    {
        let mut out = String::from_str(self.name.as_str());
        out.append(" (");
        out.append(quoted_path);
        out.append(")\n\nminimal data length: ");
        let min = self.min_data_length.to_text();
        out.append(min.as_str());
        out.append("\nmaximal data length: ");
        let max = self.max_data_length.to_text();
        out.append(max.as_str());
        out.append("\n\n");
        out.append(self.description.as_str());
        out
    }

    /// Writes the algorithm as text.
    pub fn to_text(&self) -> (out: String)
        ensures
            out@ == self.text(),
    {
        let path = quote_text(self.path.as_str());
        self.compose_text(path.as_str())
    }

    /// Name, description, bounds and path are those of `other`.
    pub open spec fn keeps_declarations_of(&self, other: &Self) -> bool {
        &&& self.name_text() == other.name_text()
        &&& self.description_text() == other.description_text()
        &&& self.min_length() == other.min_length()
        &&& self.max_length() == other.max_length()
        &&& self.path_text() == other.path_text()
    }

    /// The instance, to read.
    pub fn instance(&self) -> (instance: &I)
        ensures
            *instance == self.held_instance(),
    {
        &self.instance
    }

    /// The instance, to drive. Nothing but the instance can change through it.
    pub fn instance_mut(&mut self) -> (instance: &mut I)
        ensures
            *instance == old(self).held_instance(),
            final(self).held_instance() == *final(instance),
            final(self).keeps_declarations_of(old(self)),
            *final(instance) == *instance ==> *final(self) == *old(self),
    {
        &mut self.instance
    }
}

} // verus!
