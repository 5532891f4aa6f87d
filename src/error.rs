use vstd::prelude::*;

verus! {

/// Every way an operation of the game can be refused. A refused operation
/// leaves all records as they were.
#[derive(Clone, Copy, Debug, PartialEq, Eq, Structural)]
pub enum SolPotError {
    RoundNotActive,
    RoundExpired,
    RoundNotExpired,
    RoundAlreadyWon,
    AlreadyEntered,
    MaxPlayersReached,
    IncorrectGuess,
    InsufficientFunds,
    Unauthorized,
    InvalidFeeBasisPoints,
    ArithmeticOverflow,
    RoundStillActive,
    NoWinner,
    PotAlreadyDistributed,
    InvalidWordHash,
    EntryFeeMismatch,
    NftAlreadyMinted,
    AlreadyGuessed,
}

impl SolPotError {
    /// The message shown to a caller whose operation was refused.
    pub fn message(&self) -> (r: &'static str)
        ensures
            *self == SolPotError::RoundNotActive ==> r@ == "Round is not active"@,
            *self == SolPotError::RoundExpired ==> r@ == "Round has expired"@,
            *self == SolPotError::RoundNotExpired ==> r@ == "Round has not expired yet"@,
            *self == SolPotError::RoundAlreadyWon ==> r@ == "Round already has a winner"@,
            *self == SolPotError::AlreadyEntered ==> r@ == "Player already entered this round"@,
            *self == SolPotError::MaxPlayersReached ==> r@ == "Maximum players reached"@,
            *self == SolPotError::IncorrectGuess ==> r@ == "Incorrect guess"@,
            *self == SolPotError::InsufficientFunds ==> r@ == "Insufficient funds"@,
            *self == SolPotError::Unauthorized ==> r@ == "Unauthorized"@,
            *self == SolPotError::InvalidFeeBasisPoints ==> r@ == "Fee basis points must be <= 1000 (10%)"@,
            *self == SolPotError::ArithmeticOverflow ==> r@ == "Arithmetic overflow"@,
            *self == SolPotError::RoundStillActive ==> r@ == "Round is still active"@,
            *self == SolPotError::NoWinner ==> r@ == "No winner yet"@,
            *self == SolPotError::PotAlreadyDistributed ==> r@ == "Pot already distributed"@,
            *self == SolPotError::InvalidWordHash ==> r@ == "Invalid word hash"@,
            *self == SolPotError::EntryFeeMismatch ==> r@ == "Entry fee mismatch"@,
            *self == SolPotError::NftAlreadyMinted ==> r@ == "NFT already minted for this round"@,
            *self == SolPotError::AlreadyGuessed ==> r@ == "Player has already submitted a guess for this round"@,
    {
        match self {
            SolPotError::RoundNotActive => "Round is not active",
            SolPotError::RoundExpired => "Round has expired",
            SolPotError::RoundNotExpired => "Round has not expired yet",
            SolPotError::RoundAlreadyWon => "Round already has a winner",
            SolPotError::AlreadyEntered => "Player already entered this round",
            SolPotError::MaxPlayersReached => "Maximum players reached",
            SolPotError::IncorrectGuess => "Incorrect guess",
            SolPotError::InsufficientFunds => "Insufficient funds",
            SolPotError::Unauthorized => "Unauthorized",
            SolPotError::InvalidFeeBasisPoints => "Fee basis points must be <= 1000 (10%)",
            SolPotError::ArithmeticOverflow => "Arithmetic overflow",
            SolPotError::RoundStillActive => "Round is still active",
            SolPotError::NoWinner => "No winner yet",
            SolPotError::PotAlreadyDistributed => "Pot already distributed",
            SolPotError::InvalidWordHash => "Invalid word hash",
            SolPotError::EntryFeeMismatch => "Entry fee mismatch",
            SolPotError::NftAlreadyMinted => "NFT already minted for this round",
            SolPotError::AlreadyGuessed => "Player has already submitted a guess for this round",
        }
    }
}

} // verus!
