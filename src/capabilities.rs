//! The fixed capability declarations of the provider, as data.
use vstd::prelude::*;

verus! {

/// Subject identifier types the provider issues.
#[derive(Clone, Copy, Debug, PartialEq, Eq, Structural)]
pub enum SubjectType {
    Public,
}

/// Response types the provider supports.
#[derive(Clone, Copy, Debug, PartialEq, Eq, Structural)]
pub enum ResponseType {
    IdToken,
}

/// Claims the provider emits in its identity tokens.
#[derive(Clone, Copy, Debug, PartialEq, Eq, Structural)]
pub enum Claim {
    Sub,
    Aud,
    Exp,
    Iat,
    Iss,
    BranchName,
    Compliant,
    DeploymentEnvironmentUuid,
    PipelineUuid,
    RepositoryUuid,
    StepUuid,
    WorkspaceUuid,
}

/// Token signing algorithms the provider supports.
#[derive(Clone, Copy, Debug, PartialEq, Eq, Structural)]
pub enum SigningAlg {
    RS256,
}

/// Key types the provider publishes.
#[derive(Clone, Copy, Debug, PartialEq, Eq, Structural)]
pub enum KeyType {
    Rsa,
}

/// Scopes the provider supports.
#[derive(Clone, Copy, Debug, PartialEq, Eq, Structural)]
pub enum Scope {
    OpenID,
}

/// The declared subject types.
pub open spec fn subject_types_spec() -> Seq<SubjectType> {
    seq![SubjectType::Public]
}

/// The declared response types.
pub open spec fn response_types_spec() -> Seq<ResponseType> {
    seq![ResponseType::IdToken]
}

/// The declared signing algorithms: RS256 alone, the only one implemented.
pub open spec fn signing_algs_spec() -> Seq<SigningAlg> {
    seq![SigningAlg::RS256]
}

/// The declared scopes.
pub open spec fn scopes_spec() -> Seq<Scope> {
    seq![Scope::OpenID]
}

/// The declared claims, in publication order.
pub open spec fn claims_spec() -> Seq<Claim> {
    seq![
        Claim::Sub,
        Claim::Aud,
        Claim::Exp,
        Claim::Iat,
        Claim::Iss,
        Claim::BranchName,
        Claim::Compliant,
        Claim::DeploymentEnvironmentUuid,
        Claim::PipelineUuid,
        Claim::RepositoryUuid,
        Claim::StepUuid,
        Claim::WorkspaceUuid,
    ]
}

pub fn subject_types_supported() -> (r: Vec<SubjectType>)
    ensures
        r@ == subject_types_spec(),
{
    let mut r: Vec<SubjectType> = Vec::new();
    r.push(SubjectType::Public);
    assert(r@ =~= subject_types_spec());
    r
}

pub fn response_types_supported() -> (r: Vec<ResponseType>)
    ensures
        r@ == response_types_spec(),
{
    let mut r: Vec<ResponseType> = Vec::new();
    r.push(ResponseType::IdToken);
    assert(r@ =~= response_types_spec());
    r
}

pub fn signing_algs_supported() -> (r: Vec<SigningAlg>)
    ensures
        r@ == signing_algs_spec(),
{
    let mut r: Vec<SigningAlg> = Vec::new();
    r.push(SigningAlg::RS256);
    assert(r@ =~= signing_algs_spec());
    r
}

pub fn scopes_supported() -> (r: Vec<Scope>)
    ensures
        r@ == scopes_spec(),
{
    let mut r: Vec<Scope> = Vec::new();
    r.push(Scope::OpenID);
    assert(r@ =~= scopes_spec());
    r
}

pub fn claims_supported() -> (r: Vec<Claim>)
    ensures
        r@ == claims_spec(),
{
    let mut r: Vec<Claim> = Vec::new();
    r.push(Claim::Sub);
    r.push(Claim::Aud);
    r.push(Claim::Exp);
    r.push(Claim::Iat);
    r.push(Claim::Iss);
    r.push(Claim::BranchName);
    r.push(Claim::Compliant);
    r.push(Claim::DeploymentEnvironmentUuid);
    r.push(Claim::PipelineUuid);
    r.push(Claim::RepositoryUuid);
    r.push(Claim::StepUuid);
    r.push(Claim::WorkspaceUuid);
    assert(r@ =~= claims_spec());
    r
}

impl SubjectType {
    /// The name under which the value is published.
    pub open spec fn spec_name(self) -> Seq<char> {
        match self {
            SubjectType::Public => "public"@,
        }
    }

    pub fn as_str(&self) -> (r: &'static str)
        ensures
            r@ == self.spec_name(),
    {
        match self {
            SubjectType::Public => "public",
        }
    }
}

impl ResponseType {
    /// The name under which the value is published.
    pub open spec fn spec_name(self) -> Seq<char> {
        match self {
            ResponseType::IdToken => "id_token"@,
        }
    }

    pub fn as_str(&self) -> (r: &'static str)
        ensures
            r@ == self.spec_name(),
    {
        match self {
            ResponseType::IdToken => "id_token",
        }
    }
}

impl SigningAlg {
    /// The name under which the value is published.
    pub open spec fn spec_name(self) -> Seq<char> {
        match self {
            SigningAlg::RS256 => "RS256"@,
        }
    }

    pub fn as_str(&self) -> (r: &'static str)
        ensures
            r@ == self.spec_name(),
    {
        match self {
            SigningAlg::RS256 => "RS256",
        }
    }
}

impl KeyType {
    /// The name under which the value is published.
    pub open spec fn spec_name(self) -> Seq<char> {
        match self {
            KeyType::Rsa => "RSA"@,
        }
    }

    pub fn as_str(&self) -> (r: &'static str)
        ensures
            r@ == self.spec_name(),
    {
        match self {
            KeyType::Rsa => "RSA",
        }
    }
}

impl Scope {
    /// The name under which the value is published.
    pub open spec fn spec_name(self) -> Seq<char> {
        match self {
            Scope::OpenID => "openid"@,
        }
    }

    pub fn as_str(&self) -> (r: &'static str)
        ensures
            r@ == self.spec_name(),
    {
        match self {
            Scope::OpenID => "openid",
        }
    }
}

impl Claim {
    /// The name under which the claim is published.
    pub open spec fn spec_name(self) -> Seq<char> {
        match self {
            Claim::Sub => "sub"@,
            Claim::Aud => "aud"@,
            Claim::Exp => "exp"@,
            Claim::Iat => "iat"@,
            Claim::Iss => "iss"@,
            Claim::BranchName => "branchName"@,
            Claim::Compliant => "compliant"@,
            Claim::DeploymentEnvironmentUuid => "deploymentEnvironmentUuid"@,
            Claim::PipelineUuid => "pipelineUuid"@,
            Claim::RepositoryUuid => "repositoryUuid"@,
            Claim::StepUuid => "stepUuid"@,
            Claim::WorkspaceUuid => "workspaceUuid"@,
        }
    }

    pub fn as_str(&self) -> (r: &'static str)
        ensures
            r@ == self.spec_name(),
    {
        match self {
            Claim::Sub => "sub",
            Claim::Aud => "aud",
            Claim::Exp => "exp",
            Claim::Iat => "iat",
            Claim::Iss => "iss",
            Claim::BranchName => "branchName",
            Claim::Compliant => "compliant",
            Claim::DeploymentEnvironmentUuid => "deploymentEnvironmentUuid",
            Claim::PipelineUuid => "pipelineUuid",
            Claim::RepositoryUuid => "repositoryUuid",
            Claim::StepUuid => "stepUuid",
            Claim::WorkspaceUuid => "workspaceUuid",
        }
    }
}

} // verus!
