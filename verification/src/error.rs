use vstd::prelude::*;

verus! {

/// Errors returned by the platform's integration logic.
#[derive(Clone, Copy, Debug, PartialEq, Eq, Structural)]
pub enum BettingPlatformError {
    MathOverflow,
    InvalidInput,
    RateLimitExceeded,
    RateLimited,
    SecurityCheckFailed,
    Unauthorized,
    BootstrapAlreadyComplete,
    DepositTooSmall,
    CoverageRatioBelowMinimum,
    InvalidPriceSum,
    InsufficientLiquidity,
    TooManyOutcomes,
    TitleTooLong,
    MissingDescription,
    InvalidChainlinkVersion,
    InvalidChainlinkDecimals,
    InvalidChainlinkPrice,
    ChainlinkPriceOutOfBounds,
    UnsupportedMarketType,
    InvalidPythAccount,
    InvalidPythAccountType,
    PythPriceNotTrading,
    InvalidPythPrice,
    NoHealthyOracles,
    StaleEvidence,
    InvalidEvidenceOrder,
    AccountDataTooSmall,
    ApiError,
    InvalidMint,
    IneligibleForRewards,
    InvalidInstructionData,
    InvalidAccountData,
    ArithmeticOverflow,
    InvalidArgument,
    InsufficientFunds,
    BootstrapNotActive,
    MissingRequiredSignature,
    InvalidSeeds,
    AccountAlreadyInitialized,
    TooManyNormalizationErrors,
    StaleChainlinkPrice,
    ChainlinkMappingNotFound,
    InvalidChainlinkFeed,
    PriceFeedAlreadyExists,
    StalePythPrice,
    PythMappingNotFound,
    VampireAttackDetected,
    InsufficientAccounts,
    SystemNotInitialized,
    UnauthorizedAdmin,
    InvalidComponent,
    InvalidHealthStatus,
    TooManyPositions,
    InvalidProof,
    InvalidEvidenceType,
    AuthorityAlreadyBurned,
    BurnNotScheduled,
    BurnDelayNotMet,
    CriticalFunctionsLocked,
    NoAdminActionsRemaining,
    TransferDelayNotMet,
    NoTransferPending,
    TooManyEmergencyContacts,
    InsufficientEmergencySigners,
    UpgradesExhausted,
    InvalidOracleSignature,
    MarketNotFound,
    InsufficientOracleSources,
    NoFallbackPrice,
    FallbackExpired,
    InsufficientConfidence,
    UpdateTooFrequent,
    StalePriceFeed,
    ExcessivePriceMovement,
    MarketHalted,
    InvalidMarket,
    UnauthorizedOracleUpdate,
    AlreadyInitialized,
    DuplicateEvidence,
    PositionHealthy,
    LiquidationTooSmall,
    PartialLiquidationDisabled,
    TestAssertionFailed,
}

} // verus!
