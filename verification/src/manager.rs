//! The connection manager: a database handle and the options that every new
//! connection is created with.

use crate::error::AdbcError;
use crate::options::{adbc_pair, adbc_pairs, connection_key, key_of, string_value, value_of};
use adbc_core::error::Error;
use adbc_core::options::{OptionConnection, OptionValue};
use vstd::prelude::*;

verus! {

/// How the next connection is to be created.
#[derive(Debug)]
pub enum ConnectRequest {
    /// Through the database's capability that takes no options.
    NoOptions,
    /// Through the database's capability that takes options, with these
    /// pairs, in this order.
    WithOptions(Vec<(OptionConnection, OptionValue)>),
}

impl View for ConnectRequest {
    type V = Option<Seq<(OptionConnection, OptionValue)>>;

    open spec fn view(&self) -> Self::V {
        match self {
            ConnectRequest::NoOptions => None,
            ConnectRequest::WithOptions(pairs) => Some(pairs@),
        }
    }
}

/// The request that an option sequence calls for: none of the options
/// capability while the sequence is empty, and otherwise that capability with
/// every configured pair.
pub open spec fn request_for(options: Seq<(Seq<char>, Seq<char>)>) -> Option<
    Seq<(OptionConnection, OptionValue)>,
> {
    if options.len() == 0 {
        None
    } else {
        Some(adbc_pairs(options))
    }
}

/// What the pool is told once the driver has answered: the driver's value on
/// success, the driver's error, wrapped, on failure.
pub open spec fn reported<T>(answer: Result<T, Error>) -> Result<T, AdbcError> {
    match answer {
        Ok(value) => Ok(value),
        Err(error) => Err(AdbcError(error)),
    }
}

/// Manages the connections of one ADBC database for a connection pool.
///
/// The manager owns the database handle and an ordered sequence of option
/// pairs. Its view is that sequence.
pub struct AdbcConnectionManager<D> {
    database: D,
    connection_options: Vec<(String, String)>,
}

impl<D> View for AdbcConnectionManager<D> {
    type V = Seq<(Seq<char>, Seq<char>)>;

    closed spec fn view(&self) -> Self::V {
        self.connection_options.deep_view()
    }
}

impl<D> AdbcConnectionManager<D> {
    /// The database handle that the manager owns.
    pub closed spec fn spec_database(&self) -> &D {
        &self.database
    }

    /// Creates a manager for `database` with no options.
    pub fn new(database: D) -> (manager: Self)
        ensures
            manager@ == Seq::<(Seq<char>, Seq<char>)>::empty(),
            *manager.spec_database() == database,
    {
        Self { database, connection_options: Vec::new() }
    }

    /// Creates a manager for `database` whose options are the given pairs, in
    /// the given order, duplicates included.
    pub fn with_options(database: D, options: Vec<(String, String)>) -> (manager: Self)
        ensures
            manager@ == options.deep_view(),
            *manager.spec_database() == database,
    {
        Self { database, connection_options: options }
    }

    /// Appends one pair to the end of the option sequence. Earlier pairs stay,
    /// also those with the same key.
    pub fn add_option(&mut self, key: &str, value: &str)
        ensures
            final(self)@ == old(self)@.push((key@, value@)),
            final(self).spec_database() == old(self).spec_database(),
    {
        self.connection_options.push((key.to_owned(), value.to_owned()));
    }

    /// Empties the option sequence.
    pub fn clear_options(&mut self)
        ensures
            final(self)@ == Seq::<(Seq<char>, Seq<char>)>::empty(),
            final(self).spec_database() == old(self).spec_database(),
    {
        self.connection_options.clear();
    }

    /// The current option sequence, in order.
    pub fn options(&self) -> (options: &[(String, String)])
        ensures
            options.deep_view() == self@,
    {
        self.connection_options.as_slice()
    }

    /// The database handle, for the caller that performs a `ConnectRequest`.
    #[verifier::when_used_as_spec(spec_database)]
    pub fn database(&self) -> (database: &D)
        ensures
            database == self.spec_database(),
    {
        &self.database
    }

    /// Decides how the next connection is created, from the options as they
    /// stand now. The pairs are converted at this moment and kept nowhere.
    pub fn connect_request(&self) -> (request: ConnectRequest)
        ensures
            request@ == request_for(self@),
            self@.len() == 0 ==> request is NoOptions,
            self@.len() > 0 ==> ({
                &&& request matches ConnectRequest::WithOptions(pairs)
                &&& pairs@.len() == self@.len()
                &&& forall|i: int|
                    0 <= i < self@.len() ==> #[trigger] pairs@[i] == (
                        connection_key(self@[i].0),
                        string_value(self@[i].1),
                    )
            }),
    {
        if self.connection_options.is_empty() {
            return ConnectRequest::NoOptions;
        }
        let mut pairs: Vec<(OptionConnection, OptionValue)> = Vec::new();
        let mut i: usize = 0;
        while i < self.connection_options.len()
            invariant
                i <= self.connection_options.len(),
                pairs@.len() == i,
                forall|j: int| 0 <= j < i ==> pairs@[j] == adbc_pair(#[trigger] self@[j]),
            decreases self.connection_options.len() - i,
        {
            let pair = &self.connection_options[i];
            pairs.push((key_of(pair.0.as_str()), value_of(pair.1.as_str())));
            i += 1;
        }
        ConnectRequest::WithOptions(pairs)
    }

    /// Reports the driver's answer to a `ConnectRequest`: the new connection
    /// as it came, or the driver's error, wrapped. Nothing is tried again and
    /// the manager keeps no hold on the connection.
    pub fn connect_outcome<C>(&self, answer: Result<C, Error>) -> (outcome: Result<C, AdbcError>)
        ensures
            outcome == reported(answer),
    {
        match answer {
            Ok(connection) => Ok(connection),
            Err(error) => Err(AdbcError::from(error)),
        }
    }

    /// Judges a connection by the answer to its liveness probe, the attempt
    /// to create a statement on it. The connection is valid exactly when the
    /// probe succeeded; the statement itself is dropped unused.
    pub fn is_valid<S>(&self, probe: Result<S, Error>) -> (verdict: Result<(), AdbcError>)
        ensures
            verdict is Ok <==> probe is Ok,
            probe matches Err(error) ==> verdict == Err::<(), AdbcError>(AdbcError(error)),
    {
        match probe {
            Ok(_) => Ok(()),
            Err(error) => Err(AdbcError::from(error)),
        }
    }

    /// The quick check before validation. An ADBC connection offers no sign of
    /// life short of using it, so no connection is ever reported broken here.
    pub fn has_broken<C>(&self, conn: &mut C) -> (broken: bool)
        ensures
            !broken,
            *final(conn) == *old(conn),
    {
        false
    }
}

} // verus!
