//! The programs that a test wants on its ledger, collected before the ledger
//! is made.

use crate::pubkey::Pubkey;
use crate::transaction::TransactionError;
use vstd::prelude::*;
use vstd::slice::slice_to_vec;
use vstd::string::StringExecFns;

verus! {

/// What a test environment is made from: the programs to deploy, in order,
/// and the program that the test is about.
#[derive(Debug)]
pub struct Deployment {
    /// The programs, each with its address and its bytes.
    pub programs: Vec<(Pubkey, Vec<u8>)>,
    /// The program whose instructions the test builds.
    pub primary_program_id: Pubkey,
}

/// Collects the programs of a test environment.
#[derive(Debug)]
pub struct AnchorLiteSVM {
    programs: Vec<(Pubkey, Vec<u8>)>,
    primary_program_id: Option<Pubkey>,
}

/// What an `AnchorLiteSVM` holds, as mathematical values.
pub struct AnchorLiteSVMView {
    pub programs: Seq<(Pubkey, Seq<u8>)>,
    pub primary_program_id: Option<Pubkey>,
}

/// The view of one program.
pub open spec fn program_view(program: (Pubkey, Vec<u8>)) -> (Pubkey, Seq<u8>) {
    (program.0, program.1@)
}

/// The views of programs.
pub open spec fn programs_view(programs: Seq<(Pubkey, Vec<u8>)>) -> Seq<(Pubkey, Seq<u8>)> {
    programs.map_values(|program: (Pubkey, Vec<u8>)| program_view(program))
}

/// What is said when an environment without a program is asked for.
pub open spec fn no_program_message() -> Seq<char> {
    "At least one program must be deployed"@
}

impl AnchorLiteSVMView {
    /// The collection with the programs of `added` behind its own.
    pub open spec fn with_programs(self, added: Seq<(Pubkey, Seq<u8>)>) -> Self {
        AnchorLiteSVMView {
            programs: self.programs + added,
            primary_program_id: if self.primary_program_id is None && added.len() > 0 {
                Some(added[0].0)
            } else {
                self.primary_program_id
            },
        }
    }
}

impl View for AnchorLiteSVM {
    type V = AnchorLiteSVMView;

    closed spec fn view(&self) -> AnchorLiteSVMView {
        AnchorLiteSVMView {
            programs: programs_view(self.programs@),
            primary_program_id: self.primary_program_id,
        }
    }
}

impl AnchorLiteSVM {
    /// The first program that is deployed is the primary one until another
    /// is chosen; so where there is a program, there is a primary one.
    #[verifier::type_invariant]
    spec fn has_primary(self) -> bool {
        self.programs@.len() > 0 ==> self.primary_program_id is Some
    }

    /// A collection without a program.
    pub fn new() -> (r: Self)
        ensures
            r@ == (AnchorLiteSVMView { programs: Seq::empty(), primary_program_id: None }),
    {
        let r = AnchorLiteSVM { programs: Vec::new(), primary_program_id: None };
        assert(r@.programs =~= Seq::empty());
        r
    }

    /// Adds a program. Programs are deployed in the order in which they were
    /// added, and the first is the primary one until another is chosen.
    pub fn deploy_program(self, program_id: Pubkey, program_bytes: &[u8]) -> (r: Self)
        ensures
            r@ == self@.with_programs(seq![(program_id, program_bytes@)]),
    {
        let primary_program_id = match self.primary_program_id {
            Some(primary) => Some(primary),
            None => Some(program_id),
        };
        let mut programs = self.programs;
        programs.push((program_id, slice_to_vec(program_bytes)));
        let builder = AnchorLiteSVM { programs, primary_program_id };
        assert(builder@.programs =~= self@.programs + seq![(program_id, program_bytes@)]);
        builder
    }

    /// Adds programs, in their order.
    pub fn deploy_programs(self, programs: Vec<(Pubkey, Vec<u8>)>) -> (r: Self)
        ensures
            r@ == self@.with_programs(programs_view(programs@)),
    {
        proof {
            use_type_invariant(&self);
        }
        let ghost given = programs@;
        let mut added = programs;
        let primary_program_id = if self.primary_program_id.is_none() && added.len() > 0 {
            Some(added[0].0)
        } else {
            self.primary_program_id
        };
        let mut all = self.programs;
        all.append(&mut added);
        let builder = AnchorLiteSVM { programs: all, primary_program_id };
        assert(builder@.programs =~= self@.programs + programs_view(given));
        builder
    }

    /// Chooses the primary program.
    pub fn with_primary_program(self, program_id: Pubkey) -> (r: Self)
        ensures
            r@ == (AnchorLiteSVMView { primary_program_id: Some(program_id), ..self@ }),
    {
        let mut builder = self;
        builder.primary_program_id = Some(program_id);
        builder
    }

    /// The programs that were added, in their order.
    pub fn programs(&self) -> (r: &Vec<(Pubkey, Vec<u8>)>)
        ensures
            programs_view(r@) == self@.programs,
    {
        &self.programs
    }

    /// The primary program, if there is one yet.
    pub fn primary_program_id(&self) -> (r: Option<Pubkey>)
        ensures
            r == self@.primary_program_id,
    {
        self.primary_program_id
    }

    /// What the environment is made from, or why there is none: without a
    /// program there is nothing to test.
    pub fn try_build(self) -> (r: Result<Deployment, TransactionError>)
        ensures
            match r {
                Ok(deployment) => {
                    &&& self@.programs.len() > 0
                    &&& programs_view(deployment.programs@) == self@.programs
                    &&& self@.primary_program_id == Some(deployment.primary_program_id)
                },
                Err(e) => {
                    &&& self@.programs.len() == 0
                    &&& e is BuildError
                    &&& e.detail() == no_program_message()
                },
            },
    {
        if self.programs.len() == 0 {
            return Err(
                TransactionError::BuildError(
                    String::from_str("At least one program must be deployed"),
                ),
            );
        }
        Ok(self.build())
    }

    /// What the environment is made from.
    pub fn build(self) -> (r: Deployment)
        requires
            self@.programs.len() > 0,
        ensures
            programs_view(r.programs@) == self@.programs,
            self@.primary_program_id == Some(r.primary_program_id),
    {
        proof {
            use_type_invariant(&self);
        }
        let primary_program_id = self.primary_program_id.unwrap();
        Deployment { programs: self.programs, primary_program_id }
    }

    /// An environment with one program.
    pub fn build_with_program(program_id: Pubkey, program_bytes: &[u8]) -> (r: Deployment)
        ensures
            programs_view(r.programs@) == seq![(program_id, program_bytes@)],
            r.primary_program_id == program_id,
    {
        let builder = AnchorLiteSVM::new().deploy_program(program_id, program_bytes);
        builder.build()
    }

    /// An environment with the given programs. Where no primary program is
    /// named, the first of them is the primary one.
    pub fn from_programs(programs: Vec<(Pubkey, Vec<u8>)>, primary_program_id: Option<Pubkey>) -> (r:
        Deployment)
        requires
            programs@.len() > 0,
        ensures
            programs_view(r.programs@) == programs_view(programs@),
            r.primary_program_id == match primary_program_id {
                Some(primary) => primary,
                None => programs@[0].0,
            },
    {
        let mut builder = AnchorLiteSVM::new();
        match primary_program_id {
            Some(primary) => {
                builder = builder.with_primary_program(primary);
            },
            None => {},
        }
        let builder = builder.deploy_programs(programs);
        builder.build()
    }
}

} // verus!
