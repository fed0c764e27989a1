use agriculture_tokenization::{
    fetch_weather_data, initialize_lot, AccountId, AgricultureError, FetchWeatherData,
    InitializeLot, LotAccount, LotInitialized, OracleProgram, MAX_NAME_BYTES,
};

fn id(tag: u8) -> AccountId {
    AccountId::new([tag; 32])
}

fn vacant() -> InitializeLot {
    InitializeLot { lot: None, farmer: id(1), token_mint: id(9) }
}

#[test]
fn registers_a_lot_and_reports_it() {
    let mut ctx = vacant();
    let event = initialize_lot(&mut ctx, String::from("North field"), 1200, 2_000, 1_000);
    assert_eq!(
        event,
        Ok(LotInitialized {
            lot_name: String::from("North field"),
            owner: id(1),
            yield_estimate: 1200,
            harvest_time: 2_000,
        })
    );
    assert_eq!(
        ctx.lot,
        Some(LotAccount {
            owner: id(1),
            lot_name: String::from("North field"),
            yield_estimate: 1200,
            harvest_time: 2_000,
            token_mint: id(9),
        })
    );
    assert_eq!(ctx.farmer, id(1));
    assert_eq!(ctx.token_mint, id(9));
}

#[test]
fn zero_yield_is_refused() {
    let mut ctx = vacant();
    let result = initialize_lot(&mut ctx, String::from("a"), 0, 2_000, 1_000);
    assert_eq!(result, Err(AgricultureError::InsufficientYield));
    assert_eq!(ctx, vacant());
}

#[test]
fn zero_yield_is_refused_before_anything_else() {
    let taken = LotAccount {
        owner: id(1),
        lot_name: String::from("old"),
        yield_estimate: 5,
        harvest_time: 50,
        token_mint: id(9),
    };
    let mut ctx = InitializeLot { lot: Some(taken.clone()), farmer: id(1), token_mint: id(9) };
    let long = "x".repeat(200);
    let result = initialize_lot(&mut ctx, long, 0, 10, 1_000);
    assert_eq!(result, Err(AgricultureError::InsufficientYield));
    assert_eq!(ctx.lot, Some(taken));
}

#[test]
fn unit_yield_is_accepted() {
    for (harvest, now) in [(1i64, 0i64), (i64::MAX, i64::MAX - 1), (i64::MIN + 1, i64::MIN), (0, -1)] {
        let mut ctx = vacant();
        let result = initialize_lot(&mut ctx, String::from("lot"), 1, harvest, now);
        assert!(result.is_ok());
        assert_eq!(ctx.lot.as_ref().map(|l| l.yield_estimate), Some(1));
        assert_eq!(ctx.lot.as_ref().map(|l| l.harvest_time), Some(harvest));
    }
}

#[test]
fn harvest_at_or_before_now_is_refused() {
    for (harvest, now) in [(1_000i64, 1_000i64), (999, 1_000), (i64::MIN, i64::MIN), (-5, 0), (i64::MAX, i64::MAX)] {
        let mut ctx = vacant();
        let result = initialize_lot(&mut ctx, String::from("lot"), 7, harvest, now);
        assert_eq!(result, Err(AgricultureError::InvalidHarvestTime));
        assert_eq!(ctx.lot, None);
    }
}

#[test]
fn harvest_one_second_ahead_is_accepted() {
    let mut ctx = vacant();
    assert!(initialize_lot(&mut ctx, String::from("lot"), 7, 1_001, 1_000).is_ok());
}

#[test]
fn second_registration_by_the_same_owner_is_refused() {
    let mut ctx = vacant();
    assert!(initialize_lot(&mut ctx, String::from("first"), 10, 2_000, 1_000).is_ok());
    let stored = ctx.lot.clone();
    let again = initialize_lot(&mut ctx, String::from("second"), 20, 3_000, 1_000);
    assert_eq!(again, Err(AgricultureError::LotAlreadyInitialized));
    assert_eq!(ctx.lot, stored);
}

#[test]
fn name_of_forty_bytes_fits() {
    let name = "n".repeat(MAX_NAME_BYTES);
    let mut ctx = vacant();
    assert!(initialize_lot(&mut ctx, name.clone(), 1, 2, 1).is_ok());
    assert_eq!(ctx.lot.map(|l| l.lot_name), Some(name));
}

#[test]
fn name_of_forty_one_bytes_is_refused() {
    let mut ctx = vacant();
    let result = initialize_lot(&mut ctx, "n".repeat(41), 1, 2, 1);
    assert_eq!(result, Err(AgricultureError::LotNameTooLong));
    assert_eq!(ctx.lot, None);
}

#[test]
fn name_length_is_counted_in_bytes() {
    // Twenty-one two-byte characters take forty-two bytes.
    let mut ctx = vacant();
    let result = initialize_lot(&mut ctx, "é".repeat(21), 1, 2, 1);
    assert_eq!(result, Err(AgricultureError::LotNameTooLong));
    let mut ctx = vacant();
    assert!(initialize_lot(&mut ctx, "é".repeat(20), 1, 2, 1).is_ok());
}

#[test]
fn lot_record_size() {
    assert_eq!(LotAccount::MAX_SIZE, 128);
    assert_eq!(MAX_NAME_BYTES, 40);
}

#[test]
fn identities_compare_by_bytes() {
    let mut bytes = [3u8; 32];
    assert!(id(3) == AccountId::new(bytes));
    bytes[31] = 4;
    assert!(id(3) != AccountId::new(bytes));
    bytes[31] = 3;
    bytes[0] = 0;
    assert!(id(3) != AccountId::new(bytes));
    bytes[0] = 3;
    bytes[17] = 200;
    assert!(id(3) != AccountId::new(bytes));
    assert_eq!(AccountId::new(bytes).bytes, bytes);
}

#[test]
fn error_messages() {
    assert_eq!(AgricultureError::InsufficientYield.message(), "Insufficient yield estimate for the lot.");
    assert_eq!(AgricultureError::InvalidHarvestTime.message(), "Harvest time must be in the future.");
    assert_eq!(AgricultureError::InvalidRevenueAmount.message(), "Revenue must be greater than zero.");
    assert_eq!(AgricultureError::InvalidOwner.message(), "Unauthorized owner for this action.");
    assert_ne!(
        AgricultureError::ZeroSupply.message(),
        AgricultureError::ShareOverflow.message()
    );
}

#[test]
fn weather_lookup_succeeds() {
    let ctx = FetchWeatherData { weather_program: OracleProgram, farmer: id(1) };
    assert_eq!(fetch_weather_data(&ctx), Ok(()));
}
