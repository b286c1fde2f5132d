use vstd::prelude::*;

use crate::error::{Error, ShapeError};
use crate::json::{
    field, opt_member, opt_str_json, opt_str_ok, opt_str_view, present, push_member,
    push_opt_member, view_members, Json, JsonV,
};
use crate::params::{opt_string, read_req, req_accepts, req_decoded, text_is, FromJson};

verus! {

/// The seller in a card authorization.
#[derive(Clone, Debug)]
pub struct MerchantData {
    /// Identifier assigned to the seller by the card brand.
    pub network_id: String,
    /// The seller's kind of business.
    pub category: MerchantCategory,
    /// Name of the seller.
    pub name: Option<String>,
    /// City where the seller is located.
    pub city: Option<String>,
    /// State where the seller is located.
    pub state: Option<String>,
    /// Country where the seller is located.
    pub country: Option<String>,
    /// Postal code where the seller is located.
    pub postal_code: Option<String>,
}

impl FromJson for MerchantData {
    open spec fn accepts(v: JsonV) -> bool {
        &&& v is Object
        &&& field(v, "network_id"@) matches Some(JsonV::Str(_))
        &&& req_accepts::<MerchantCategory>(field(v, "category"@))
        &&& opt_str_ok(field(v, "name"@))
        &&& opt_str_ok(field(v, "city"@))
        &&& opt_str_ok(field(v, "state"@))
        &&& opt_str_ok(field(v, "country"@))
        &&& opt_str_ok(field(v, "postal_code"@))
    }

    open spec fn decoded_from(&self, v: JsonV) -> bool {
        &&& field(v, "network_id"@) == Some(JsonV::Str(self.network_id@))
        &&& req_decoded(self.category, field(v, "category"@))
        &&& present(field(v, "name"@)) == opt_str_json(opt_str_view(self.name))
        &&& present(field(v, "city"@)) == opt_str_json(opt_str_view(self.city))
        &&& present(field(v, "state"@)) == opt_str_json(opt_str_view(self.state))
        &&& present(field(v, "country"@)) == opt_str_json(opt_str_view(self.country))
        &&& present(field(v, "postal_code"@)) == opt_str_json(opt_str_view(self.postal_code))
    }

    fn from_json(v: &Json) -> (r: Result<Self, Error>) {
        if !v.is_object() {
            return Err(Error::Shape(ShapeError::WrongType(String::from_str("merchant_data"))));
        }
        let network_id = match v.read_str("network_id") {
            Ok(x) => x,
            Err(e) => {
                return Err(e);
            },
        };
        let category = match read_req::<MerchantCategory>(v, "category") {
            Ok(x) => x,
            Err(e) => {
                return Err(e);
            },
        };
        let name = match v.read_opt_str("name") {
            Ok(x) => x,
            Err(e) => {
                return Err(e);
            },
        };
        let city = match v.read_opt_str("city") {
            Ok(x) => x,
            Err(e) => {
                return Err(e);
            },
        };
        let state = match v.read_opt_str("state") {
            Ok(x) => x,
            Err(e) => {
                return Err(e);
            },
        };
        let country = match v.read_opt_str("country") {
            Ok(x) => x,
            Err(e) => {
                return Err(e);
            },
        };
        let postal_code = match v.read_opt_str("postal_code") {
            Ok(x) => x,
            Err(e) => {
                return Err(e);
            },
        };
        Ok(MerchantData { network_id, category, name, city, state, country, postal_code })
    }
}

impl Default for MerchantData {
    fn default() -> (r: Self)
        ensures
            r.network_id@.len() == 0,
            r.category == MerchantCategory::Miscellaneous,
            r.name is None,
            r.city is None,
            r.state is None,
            r.country is None,
            r.postal_code is None,
    {
        MerchantData {
            network_id: String::new(),
            category: MerchantCategory::Miscellaneous,
            name: None,
            city: None,
            state: None,
            country: None,
            postal_code: None,
        }
    }
}

impl MerchantData {
    /// The payload: the required members, then each optional one that is set.
    pub open spec fn spec_json(&self) -> JsonV {
        JsonV::Object(
            seq![
                ("network_id"@, JsonV::Str(self.network_id@)),
                ("category"@, JsonV::Str(self.category.spec_str())),
            ] + opt_member("name"@, opt_str_json(opt_str_view(self.name))) + opt_member(
                "city"@,
                opt_str_json(opt_str_view(self.city)),
            ) + opt_member("state"@, opt_str_json(opt_str_view(self.state))) + opt_member(
                "country"@,
                opt_str_json(opt_str_view(self.country)),
            ) + opt_member("postal_code"@, opt_str_json(opt_str_view(self.postal_code))),
        )
    }

    pub fn to_json(&self) -> (r: Json)
        ensures
            r@ == self.spec_json(),
    {
        let mut ms: Vec<(String, Json)> = Vec::new();
        proof {
            assert(view_members(ms@) =~= Seq::empty());
        }
        push_member(&mut ms, "network_id", Json::Str(self.network_id.clone()));
        push_member(&mut ms, "category", self.category.to_json());
        push_opt_member(&mut ms, "name", opt_string(&self.name));
        push_opt_member(&mut ms, "city", opt_string(&self.city));
        push_opt_member(&mut ms, "state", opt_string(&self.state));
        push_opt_member(&mut ms, "country", opt_string(&self.country));
        push_opt_member(&mut ms, "postal_code", opt_string(&self.postal_code));
        proof {
            assert(view_members(ms@) =~= self.spec_json()->Object_0);
        }
        Json::Object(ms)
    }
}

/// The industry of a merchant.
#[derive(Clone, Copy, Debug, PartialEq, Eq, Structural)]
pub enum MerchantCategory {
    AcRefrigerationRepair,
    AccountingBookkeepingServices,
    AdvertisingServices,
    AgriculturalCooperative,
    AirlinesAirCarriers,
    AirportsFlyingFields,
    AmbulanceServices,
    AmusementParksCarnivals,
    AntiqueReproductions,
    AntiqueShops,
    Aquariums,
    ArchitecturalSurveyingServices,
    ArtDealersAndGalleries,
    ArtistsSupplyAndCraftShops,
    AutoAndHomeSupplyStores,
    AutoBodyRepairShops,
    AutoPaintShops,
    AutoServiceShops,
    AutomatedCashDisburse,
    AutomatedFuelDispensers,
    AutomobileAssociations,
    AutomotivePartsAndAccessoriesStores,
    AutomotiveTireStores,
    BailAndBondPayments,
    Bakeries,
    BandsOrchestras,
    BarberAndBeautyShops,
    BettingCasinoGambling,
    BicycleShops,
    BilliardPoolEstablishments,
    BoatDealers,
    BoatRentalsAndLeases,
    BookStores,
    BooksPeriodicalsAndNewspapers,
    BowlingAlleys,
    BusLines,
    BusinessSecretarialSchools,
    BuyingShoppingServices,
    CableSatelliteAndOtherPayTelevisionAndRadio,
    CameraAndPhotographicSupplyStores,
    CandyNutAndConfectioneryStores,
    CarAndTruckDealersNewUsed,
    CarAndTruckDealersUsedOnly,
    CarRentalAgencies,
    CarWashes,
    CarpentryServices,
    CarpetUpholsteryCleaning,
    Caterers,
    CharitableAndSocialServiceOrganizationsFundraising,
    ChemicalsAndAlliedProducts,
    ChidrensAndInfantsWearStores,
    ChildCareServices,
    ChiropodistsPodiatrists,
    Chiropractors,
    CigarStoresAndStands,
    CivicSocialFraternalAssociations,
    CleaningAndMaintenance,
    ClothingRental,
    CollegesUniversities,
    CommercialEquipment,
    CommercialFootwear,
    CommercialPhotographyArtAndGraphics,
    CommuterTransportAndFerries,
    ComputerNetworkServices,
    ComputerProgramming,
    ComputerRepair,
    ComputerSoftwareStores,
    ComputersPeripheralsAndSoftware,
    ConcreteWorkServices,
    ConstructionMaterials,
    ConsultingPublicRelations,
    CorrespondenceSchools,
    CosmeticStores,
    CounselingServices,
    CountryClubs,
    CourierServices,
    CourtCosts,
    CreditReportingAgencies,
    CruiseLines,
    DairyProductsStores,
    DanceHallStudiosSchools,
    DatingEscortServices,
    DentistsOrthodontists,
    DepartmentStores,
    DetectiveAgencies,
    DirectMarketingCatalogMerchant,
    DirectMarketingCombinationCatalogAndRetailMerchant,
    DirectMarketingInboundTelemarketing,
    DirectMarketingInsuranceServices,
    DirectMarketingOther,
    DirectMarketingOutboundTelemarketing,
    DirectMarketingSubscription,
    DirectMarketingTravel,
    DiscountStores,
    Doctors,
    DoorToDoorSales,
    DraperyWindowCoveringAndUpholsteryStores,
    DrinkingPlaces,
    DrugStoresAndPharmacies,
    DrugsDrugProprietariesAndDruggistSundries,
    DryCleaners,
    DurableGoods,
    DutyFreeStores,
    EatingPlacesRestaurants,
    EducationalServices,
    ElectricRazorStores,
    ElectricalPartsAndEquipment,
    ElectricalServices,
    ElectronicsRepairShops,
    ElectronicsStores,
    ElementarySecondarySchools,
    EmploymentTempAgencies,
    EquipmentRental,
    ExterminatingServices,
    FamilyClothingStores,
    FastFoodRestaurants,
    FinancialInstitutions,
    FinesGovernmentAdministrativeEntities,
    FireplaceFireplaceScreensAndAccessoriesStores,
    FloorCoveringStores,
    Florists,
    FloristsSuppliesNurseryStockAndFlowers,
    FreezerAndLockerMeatProvisioners,
    FuelDealersNonAutomotive,
    FuneralServicesCrematories,
    FurnitureHomeFurnishingsAndEquipmentStoresExceptAppliances,
    FurnitureRepairRefinishing,
    FurriersAndFurShops,
    GeneralServices,
    GiftCardNoveltyAndSouvenirShops,
    GlassPaintAndWallpaperStores,
    GlasswareCrystalStores,
    GolfCoursesPublic,
    GovernmentServices,
    GroceryStoresSupermarkets,
    HardwareEquipmentAndSupplies,
    HardwareStores,
    HealthAndBeautySpas,
    HearingAidsSalesAndSupplies,
    HeatingPlumbingAC,
    HobbyToyAndGameShops,
    HomeSupplyWarehouseStores,
    Hospitals,
    HotelsMotelsAndResorts,
    HouseholdApplianceStores,
    IndustrialSupplies,
    InformationRetrievalServices,
    InsuranceDefault,
    InsuranceUnderwritingPremiums,
    IntraCompanyPurchases,
    JewelryStoresWatchesClocksAndSilverwareStores,
    LandscapingServices,
    Laundries,
    LaundryCleaningServices,
    LegalServicesAttorneys,
    LuggageAndLeatherGoodsStores,
    LumberBuildingMaterialsStores,
    ManualCashDisburse,
    MarinasServiceAndSupplies,
    MasonryStoneworkAndPlaster,
    MassageParlors,
    MedicalAndDentalLabs,
    MedicalDentalOphthalmicAndHospitalEquipmentAndSupplies,
    MedicalServices,
    MembershipOrganizations,
    MensAndBoysClothingAndAccessoriesStores,
    MensWomensClothingStores,
    MetalServiceCenters,
    Miscellaneous,
    MiscellaneousApparelAndAccessoryShops,
    MiscellaneousAutoDealers,
    MiscellaneousBusinessServices,
    MiscellaneousFoodStores,
    MiscellaneousGeneralMerchandise,
    MiscellaneousGeneralServices,
    MiscellaneousHomeFurnishingSpecialtyStores,
    MiscellaneousPublishingAndPrinting,
    MiscellaneousRecreationServices,
    MiscellaneousRepairShops,
    MiscellaneousSpecialtyRetail,
    MobileHomeDealers,
    MotionPictureTheaters,
    MotorFreightCarriersAndTrucking,
    MotorHomesDealers,
    MotorVehicleSuppliesAndNewParts,
    MotorcycleShopsAndDealers,
    MotorcycleShopsDealers,
    MusicStoresMusicalInstrumentsPianosAndSheetMusic,
    NewsDealersAndNewsstands,
    NonFiMoneyOrders,
    NonFiStoredValueCardPurchaseLoad,
    NondurableGoods,
    NurseriesLawnAndGardenSupplyStores,
    NursingPersonalCare,
    OfficeAndCommercialFurniture,
    OpticiansEyeglasses,
    OptometristsOphthalmologist,
    OrthopedicGoodsProstheticDevices,
    Osteopaths,
    PackageStoresBeerWineAndLiquor,
    PaintsVarnishesAndSupplies,
    ParkingLotsGarages,
    PassengerRailways,
    PawnShops,
    PetShopsPetFoodAndSupplies,
    PetroleumAndPetroleumProducts,
    PhotoDeveloping,
    PhotographicPhotocopyMicrofilmEquipmentAndSupplies,
    PhotographicStudios,
    PictureVideoProduction,
    PieceGoodsNotionsAndOtherDryGoods,
    PlumbingHeatingEquipmentAndSupplies,
    PoliticalOrganizations,
    PostalServicesGovernmentOnly,
    PreciousStonesAndMetalsWatchesAndJewelry,
    ProfessionalServices,
    PublicWarehousingAndStorage,
    QuickCopyReproAndBlueprint,
    Railroads,
    RealEstateAgentsAndManagersRentals,
    RecordStores,
    RecreationalVehicleRentals,
    ReligiousGoodsStores,
    ReligiousOrganizations,
    RoofingSidingSheetMetal,
    SecretarialSupportServices,
    SecurityBrokersDealers,
    ServiceStations,
    SewingNeedleworkFabricAndPieceGoodsStores,
    ShoeRepairHatCleaning,
    ShoeStores,
    SmallApplianceRepair,
    SnowmobileDealers,
    SpecialTradeServices,
    SpecialtyCleaning,
    SportingGoodsStores,
    SportingRecreationCamps,
    SportsAndRidingApparelStores,
    SportsClubsFields,
    StampAndCoinStores,
    StationaryOfficeSuppliesPrintingAndWritingPaper,
    StationeryStoresOfficeAndSchoolSupplyStores,
    SwimmingPoolsSales,
    TUiTravelGermany,
    TailorsAlterations,
    TaxPaymentsGovernmentAgencies,
    TaxPreparationServices,
    TaxicabsLimousines,
    TelecommunicationEquipmentAndTelephoneSales,
    TelecommunicationServices,
    TelegraphServices,
    TentAndAwningShops,
    TestingLaboratories,
    TheatricalTicketAgencies,
    Timeshares,
    TireRetreadingAndRepair,
    TollsBridgeFees,
    TouristAttractionsAndExhibits,
    TowingServices,
    TrailerParksCampgrounds,
    TransportationServices,
    TravelAgenciesTourOperators,
    TruckStopIteration,
    TruckUtilityTrailerRentals,
    TypesettingPlateMakingAndRelatedServices,
    TypewriterStores,
    USFederalGovernmentAgenciesOrDepartments,
    UniformsCommercialClothing,
    UsedMerchandiseAndSecondhandStores,
    Utilities,
    VarietyStores,
    VeterinaryServices,
    VideoAmusementGameSupplies,
    VideoGameArcades,
    VideoTapeRentalStores,
    VocationalTradeSchools,
    WatchJewelryRepair,
    WeldingRepair,
    WholesaleClubs,
    WigAndToupeeStores,
    WiresMoneyOrders,
    WomensAccessoryAndSpecialtyShops,
    WomensReadyToWearStores,
    WreckingAndSalvageYards,
}

impl MerchantCategory {
    /// The name that the service uses for this value.
    pub open spec fn spec_str(&self) -> Seq<char> {
        match self {
            MerchantCategory::AcRefrigerationRepair => "ac_refrigeration_repair"@,
            MerchantCategory::AccountingBookkeepingServices => "accounting_bookkeeping_services"@,
            MerchantCategory::AdvertisingServices => "advertising_services"@,
            MerchantCategory::AgriculturalCooperative => "agricultural_cooperative"@,
            MerchantCategory::AirlinesAirCarriers => "airlines_air_carriers"@,
            MerchantCategory::AirportsFlyingFields => "airports_flying_fields"@,
            MerchantCategory::AmbulanceServices => "ambulance_services"@,
            MerchantCategory::AmusementParksCarnivals => "amusement_parks_carnivals"@,
            MerchantCategory::AntiqueReproductions => "antique_reproductions"@,
            MerchantCategory::AntiqueShops => "antique_shops"@,
            MerchantCategory::Aquariums => "aquariums"@,
            MerchantCategory::ArchitecturalSurveyingServices => "architectural_surveying_services"@,
            MerchantCategory::ArtDealersAndGalleries => "art_dealers_and_galleries"@,
            MerchantCategory::ArtistsSupplyAndCraftShops => "artists_supply_and_craft_shops"@,
            MerchantCategory::AutoAndHomeSupplyStores => "auto_and_home_supply_stores"@,
            MerchantCategory::AutoBodyRepairShops => "auto_body_repair_shops"@,
            MerchantCategory::AutoPaintShops => "auto_paint_shops"@,
            MerchantCategory::AutoServiceShops => "auto_service_shops"@,
            MerchantCategory::AutomatedCashDisburse => "automated_cash_disburse"@,
            MerchantCategory::AutomatedFuelDispensers => "automated_fuel_dispensers"@,
            MerchantCategory::AutomobileAssociations => "automobile_associations"@,
            MerchantCategory::AutomotivePartsAndAccessoriesStores => "automotive_parts_and_accessories_stores"@,
            MerchantCategory::AutomotiveTireStores => "automotive_tire_stores"@,
            MerchantCategory::BailAndBondPayments => "bail_and_bond_payments"@,
            MerchantCategory::Bakeries => "bakeries"@,
            MerchantCategory::BandsOrchestras => "bands_orchestras"@,
            MerchantCategory::BarberAndBeautyShops => "barber_and_beauty_shops"@,
            MerchantCategory::BettingCasinoGambling => "betting_casino_gambling"@,
            MerchantCategory::BicycleShops => "bicycle_shops"@,
            MerchantCategory::BilliardPoolEstablishments => "billiard_pool_establishments"@,
            MerchantCategory::BoatDealers => "boat_dealers"@,
            MerchantCategory::BoatRentalsAndLeases => "boat_rentals_and_leases"@,
            MerchantCategory::BookStores => "book_stores"@,
            MerchantCategory::BooksPeriodicalsAndNewspapers => "books_periodicals_and_newspapers"@,
            MerchantCategory::BowlingAlleys => "bowling_alleys"@,
            MerchantCategory::BusLines => "bus_lines"@,
            MerchantCategory::BusinessSecretarialSchools => "business_secretarial_schools"@,
            MerchantCategory::BuyingShoppingServices => "buying_shopping_services"@,
            MerchantCategory::CableSatelliteAndOtherPayTelevisionAndRadio => "cable_satellite_and_other_pay_television_and_radio"@,
            MerchantCategory::CameraAndPhotographicSupplyStores => "camera_and_photographic_supply_stores"@,
            MerchantCategory::CandyNutAndConfectioneryStores => "candy_nut_and_confectionery_stores"@,
            MerchantCategory::CarAndTruckDealersNewUsed => "car_and_truck_dealers_new_used"@,
            MerchantCategory::CarAndTruckDealersUsedOnly => "car_and_truck_dealers_used_only"@,
            MerchantCategory::CarRentalAgencies => "car_rental_agencies"@,
            MerchantCategory::CarWashes => "car_washes"@,
            MerchantCategory::CarpentryServices => "carpentry_services"@,
            MerchantCategory::CarpetUpholsteryCleaning => "carpet_upholstery_cleaning"@,
            MerchantCategory::Caterers => "caterers"@,
            MerchantCategory::CharitableAndSocialServiceOrganizationsFundraising => "charitable_and_social_service_organizations_fundraising"@,
            MerchantCategory::ChemicalsAndAlliedProducts => "chemicals_and_allied_products"@,
            MerchantCategory::ChidrensAndInfantsWearStores => "chidrens_and_infants_wear_stores"@,
            MerchantCategory::ChildCareServices => "child_care_services"@,
            MerchantCategory::ChiropodistsPodiatrists => "chiropodists_podiatrists"@,
            MerchantCategory::Chiropractors => "chiropractors"@,
            MerchantCategory::CigarStoresAndStands => "cigar_stores_and_stands"@,
            MerchantCategory::CivicSocialFraternalAssociations => "civic_social_fraternal_associations"@,
            MerchantCategory::CleaningAndMaintenance => "cleaning_and_maintenance"@,
            MerchantCategory::ClothingRental => "clothing_rental"@,
            MerchantCategory::CollegesUniversities => "colleges_universities"@,
            MerchantCategory::CommercialEquipment => "commercial_equipment"@,
            MerchantCategory::CommercialFootwear => "commercial_footwear"@,
            MerchantCategory::CommercialPhotographyArtAndGraphics => "commercial_photography_art_and_graphics"@,
            MerchantCategory::CommuterTransportAndFerries => "commuter_transport_and_ferries"@,
            MerchantCategory::ComputerNetworkServices => "computer_network_services"@,
            MerchantCategory::ComputerProgramming => "computer_programming"@,
            MerchantCategory::ComputerRepair => "computer_repair"@,
            MerchantCategory::ComputerSoftwareStores => "computer_software_stores"@,
            MerchantCategory::ComputersPeripheralsAndSoftware => "computers_peripherals_and_software"@,
            MerchantCategory::ConcreteWorkServices => "concrete_work_services"@,
            MerchantCategory::ConstructionMaterials => "construction_materials"@,
            MerchantCategory::ConsultingPublicRelations => "consulting_public_relations"@,
            MerchantCategory::CorrespondenceSchools => "correspondence_schools"@,
            MerchantCategory::CosmeticStores => "cosmetic_stores"@,
            MerchantCategory::CounselingServices => "counseling_services"@,
            MerchantCategory::CountryClubs => "country_clubs"@,
            MerchantCategory::CourierServices => "courier_services"@,
            MerchantCategory::CourtCosts => "court_costs"@,
            MerchantCategory::CreditReportingAgencies => "credit_reporting_agencies"@,
            MerchantCategory::CruiseLines => "cruise_lines"@,
            MerchantCategory::DairyProductsStores => "dairy_products_stores"@,
            MerchantCategory::DanceHallStudiosSchools => "dance_hall_studios_schools"@,
            MerchantCategory::DatingEscortServices => "dating_escort_services"@,
            MerchantCategory::DentistsOrthodontists => "dentists_orthodontists"@,
            MerchantCategory::DepartmentStores => "department_stores"@,
            MerchantCategory::DetectiveAgencies => "detective_agencies"@,
            MerchantCategory::DirectMarketingCatalogMerchant => "direct_marketing_catalog_merchant"@,
            MerchantCategory::DirectMarketingCombinationCatalogAndRetailMerchant => "direct_marketing_combination_catalog_and_retail_merchant"@,
            MerchantCategory::DirectMarketingInboundTelemarketing => "direct_marketing_inbound_telemarketing"@,
            MerchantCategory::DirectMarketingInsuranceServices => "direct_marketing_insurance_services"@,
            MerchantCategory::DirectMarketingOther => "direct_marketing_other"@,
            MerchantCategory::DirectMarketingOutboundTelemarketing => "direct_marketing_outbound_telemarketing"@,
            MerchantCategory::DirectMarketingSubscription => "direct_marketing_subscription"@,
            MerchantCategory::DirectMarketingTravel => "direct_marketing_travel"@,
            MerchantCategory::DiscountStores => "discount_stores"@,
            MerchantCategory::Doctors => "doctors"@,
            MerchantCategory::DoorToDoorSales => "door_to_door_sales"@,
            MerchantCategory::DraperyWindowCoveringAndUpholsteryStores => "drapery_window_covering_and_upholstery_stores"@,
            MerchantCategory::DrinkingPlaces => "drinking_places"@,
            MerchantCategory::DrugStoresAndPharmacies => "drug_stores_and_pharmacies"@,
            MerchantCategory::DrugsDrugProprietariesAndDruggistSundries => "drugs_drug_proprietaries_and_druggist_sundries"@,
            MerchantCategory::DryCleaners => "dry_cleaners"@,
            MerchantCategory::DurableGoods => "durable_goods"@,
            MerchantCategory::DutyFreeStores => "duty_free_stores"@,
            MerchantCategory::EatingPlacesRestaurants => "eating_places_restaurants"@,
            MerchantCategory::EducationalServices => "educational_services"@,
            MerchantCategory::ElectricRazorStores => "electric_razor_stores"@,
            MerchantCategory::ElectricalPartsAndEquipment => "electrical_parts_and_equipment"@,
            MerchantCategory::ElectricalServices => "electrical_services"@,
            MerchantCategory::ElectronicsRepairShops => "electronics_repair_shops"@,
            MerchantCategory::ElectronicsStores => "electronics_stores"@,
            MerchantCategory::ElementarySecondarySchools => "elementary_secondary_schools"@,
            MerchantCategory::EmploymentTempAgencies => "employment_temp_agencies"@,
            MerchantCategory::EquipmentRental => "equipment_rental"@,
            MerchantCategory::ExterminatingServices => "exterminating_services"@,
            MerchantCategory::FamilyClothingStores => "family_clothing_stores"@,
            MerchantCategory::FastFoodRestaurants => "fast_food_restaurants"@,
            MerchantCategory::FinancialInstitutions => "financial_institutions"@,
            MerchantCategory::FinesGovernmentAdministrativeEntities => "fines_government_administrative_entities"@,
            MerchantCategory::FireplaceFireplaceScreensAndAccessoriesStores => "fireplace_fireplace_screens_and_accessories_stores"@,
            MerchantCategory::FloorCoveringStores => "floor_covering_stores"@,
            MerchantCategory::Florists => "florists"@,
            MerchantCategory::FloristsSuppliesNurseryStockAndFlowers => "florists_supplies_nursery_stock_and_flowers"@,
            MerchantCategory::FreezerAndLockerMeatProvisioners => "freezer_and_locker_meat_provisioners"@,
            MerchantCategory::FuelDealersNonAutomotive => "fuel_dealers_non_automotive"@,
            MerchantCategory::FuneralServicesCrematories => "funeral_services_crematories"@,
            MerchantCategory::FurnitureHomeFurnishingsAndEquipmentStoresExceptAppliances => "furniture_home_furnishings_and_equipment_stores_except_appliances"@,
            MerchantCategory::FurnitureRepairRefinishing => "furniture_repair_refinishing"@,
            MerchantCategory::FurriersAndFurShops => "furriers_and_fur_shops"@,
            MerchantCategory::GeneralServices => "general_services"@,
            MerchantCategory::GiftCardNoveltyAndSouvenirShops => "gift_card_novelty_and_souvenir_shops"@,
            MerchantCategory::GlassPaintAndWallpaperStores => "glass_paint_and_wallpaper_stores"@,
            MerchantCategory::GlasswareCrystalStores => "glassware_crystal_stores"@,
            MerchantCategory::GolfCoursesPublic => "golf_courses_public"@,
            MerchantCategory::GovernmentServices => "government_services"@,
            MerchantCategory::GroceryStoresSupermarkets => "grocery_stores_supermarkets"@,
            MerchantCategory::HardwareEquipmentAndSupplies => "hardware_equipment_and_supplies"@,
            MerchantCategory::HardwareStores => "hardware_stores"@,
            MerchantCategory::HealthAndBeautySpas => "health_and_beauty_spas"@,
            MerchantCategory::HearingAidsSalesAndSupplies => "hearing_aids_sales_and_supplies"@,
            MerchantCategory::HeatingPlumbingAC => "heating_plumbing_a_c"@,
            MerchantCategory::HobbyToyAndGameShops => "hobby_toy_and_game_shops"@,
            MerchantCategory::HomeSupplyWarehouseStores => "home_supply_warehouse_stores"@,
            MerchantCategory::Hospitals => "hospitals"@,
            MerchantCategory::HotelsMotelsAndResorts => "hotels_motels_and_resorts"@,
            MerchantCategory::HouseholdApplianceStores => "household_appliance_stores"@,
            MerchantCategory::IndustrialSupplies => "industrial_supplies"@,
            MerchantCategory::InformationRetrievalServices => "information_retrieval_services"@,
            MerchantCategory::InsuranceDefault => "insurance_default"@,
            MerchantCategory::InsuranceUnderwritingPremiums => "insurance_underwriting_premiums"@,
            MerchantCategory::IntraCompanyPurchases => "intra_company_purchases"@,
            MerchantCategory::JewelryStoresWatchesClocksAndSilverwareStores => "jewelry_stores_watches_clocks_and_silverware_stores"@,
            MerchantCategory::LandscapingServices => "landscaping_services"@,
            MerchantCategory::Laundries => "laundries"@,
            MerchantCategory::LaundryCleaningServices => "laundry_cleaning_services"@,
            MerchantCategory::LegalServicesAttorneys => "legal_services_attorneys"@,
            MerchantCategory::LuggageAndLeatherGoodsStores => "luggage_and_leather_goods_stores"@,
            MerchantCategory::LumberBuildingMaterialsStores => "lumber_building_materials_stores"@,
            MerchantCategory::ManualCashDisburse => "manual_cash_disburse"@,
            MerchantCategory::MarinasServiceAndSupplies => "marinas_service_and_supplies"@,
            MerchantCategory::MasonryStoneworkAndPlaster => "masonry_stonework_and_plaster"@,
            MerchantCategory::MassageParlors => "massage_parlors"@,
            MerchantCategory::MedicalAndDentalLabs => "medical_and_dental_labs"@,
            MerchantCategory::MedicalDentalOphthalmicAndHospitalEquipmentAndSupplies => "medical_dental_ophthalmic_and_hospital_equipment_and_supplies"@,
            MerchantCategory::MedicalServices => "medical_services"@,
            MerchantCategory::MembershipOrganizations => "membership_organizations"@,
            MerchantCategory::MensAndBoysClothingAndAccessoriesStores => "mens_and_boys_clothing_and_accessories_stores"@,
            MerchantCategory::MensWomensClothingStores => "mens_womens_clothing_stores"@,
            MerchantCategory::MetalServiceCenters => "metal_service_centers"@,
            MerchantCategory::Miscellaneous => "miscellaneous"@,
            MerchantCategory::MiscellaneousApparelAndAccessoryShops => "miscellaneous_apparel_and_accessory_shops"@,
            MerchantCategory::MiscellaneousAutoDealers => "miscellaneous_auto_dealers"@,
            MerchantCategory::MiscellaneousBusinessServices => "miscellaneous_business_services"@,
            MerchantCategory::MiscellaneousFoodStores => "miscellaneous_food_stores"@,
            MerchantCategory::MiscellaneousGeneralMerchandise => "miscellaneous_general_merchandise"@,
            MerchantCategory::MiscellaneousGeneralServices => "miscellaneous_general_services"@,
            MerchantCategory::MiscellaneousHomeFurnishingSpecialtyStores => "miscellaneous_home_furnishing_specialty_stores"@,
            MerchantCategory::MiscellaneousPublishingAndPrinting => "miscellaneous_publishing_and_printing"@,
            MerchantCategory::MiscellaneousRecreationServices => "miscellaneous_recreation_services"@,
            MerchantCategory::MiscellaneousRepairShops => "miscellaneous_repair_shops"@,
            MerchantCategory::MiscellaneousSpecialtyRetail => "miscellaneous_specialty_retail"@,
            MerchantCategory::MobileHomeDealers => "mobile_home_dealers"@,
            MerchantCategory::MotionPictureTheaters => "motion_picture_theaters"@,
            MerchantCategory::MotorFreightCarriersAndTrucking => "motor_freight_carriers_and_trucking"@,
            MerchantCategory::MotorHomesDealers => "motor_homes_dealers"@,
            MerchantCategory::MotorVehicleSuppliesAndNewParts => "motor_vehicle_supplies_and_new_parts"@,
            MerchantCategory::MotorcycleShopsAndDealers => "motorcycle_shops_and_dealers"@,
            MerchantCategory::MotorcycleShopsDealers => "motorcycle_shops_dealers"@,
            MerchantCategory::MusicStoresMusicalInstrumentsPianosAndSheetMusic => "music_stores_musical_instruments_pianos_and_sheet_music"@,
            MerchantCategory::NewsDealersAndNewsstands => "news_dealers_and_newsstands"@,
            MerchantCategory::NonFiMoneyOrders => "non_fi_money_orders"@,
            MerchantCategory::NonFiStoredValueCardPurchaseLoad => "non_fi_stored_value_card_purchase_load"@,
            MerchantCategory::NondurableGoods => "nondurable_goods"@,
            MerchantCategory::NurseriesLawnAndGardenSupplyStores => "nurseries_lawn_and_garden_supply_stores"@,
            MerchantCategory::NursingPersonalCare => "nursing_personal_care"@,
            MerchantCategory::OfficeAndCommercialFurniture => "office_and_commercial_furniture"@,
            MerchantCategory::OpticiansEyeglasses => "opticians_eyeglasses"@,
            MerchantCategory::OptometristsOphthalmologist => "optometrists_ophthalmologist"@,
            MerchantCategory::OrthopedicGoodsProstheticDevices => "orthopedic_goods_prosthetic_devices"@,
            MerchantCategory::Osteopaths => "osteopaths"@,
            MerchantCategory::PackageStoresBeerWineAndLiquor => "package_stores_beer_wine_and_liquor"@,
            MerchantCategory::PaintsVarnishesAndSupplies => "paints_varnishes_and_supplies"@,
            MerchantCategory::ParkingLotsGarages => "parking_lots_garages"@,
            MerchantCategory::PassengerRailways => "passenger_railways"@,
            MerchantCategory::PawnShops => "pawn_shops"@,
            MerchantCategory::PetShopsPetFoodAndSupplies => "pet_shops_pet_food_and_supplies"@,
            MerchantCategory::PetroleumAndPetroleumProducts => "petroleum_and_petroleum_products"@,
            MerchantCategory::PhotoDeveloping => "photo_developing"@,
            MerchantCategory::PhotographicPhotocopyMicrofilmEquipmentAndSupplies => "photographic_photocopy_microfilm_equipment_and_supplies"@,
            MerchantCategory::PhotographicStudios => "photographic_studios"@,
            MerchantCategory::PictureVideoProduction => "picture_video_production"@,
            MerchantCategory::PieceGoodsNotionsAndOtherDryGoods => "piece_goods_notions_and_other_dry_goods"@,
            MerchantCategory::PlumbingHeatingEquipmentAndSupplies => "plumbing_heating_equipment_and_supplies"@,
            MerchantCategory::PoliticalOrganizations => "political_organizations"@,
            MerchantCategory::PostalServicesGovernmentOnly => "postal_services_government_only"@,
            MerchantCategory::PreciousStonesAndMetalsWatchesAndJewelry => "precious_stones_and_metals_watches_and_jewelry"@,
            MerchantCategory::ProfessionalServices => "professional_services"@,
            MerchantCategory::PublicWarehousingAndStorage => "public_warehousing_and_storage"@,
            MerchantCategory::QuickCopyReproAndBlueprint => "quick_copy_repro_and_blueprint"@,
            MerchantCategory::Railroads => "railroads"@,
            MerchantCategory::RealEstateAgentsAndManagersRentals => "real_estate_agents_and_managers_rentals"@,
            MerchantCategory::RecordStores => "record_stores"@,
            MerchantCategory::RecreationalVehicleRentals => "recreational_vehicle_rentals"@,
            MerchantCategory::ReligiousGoodsStores => "religious_goods_stores"@,
            MerchantCategory::ReligiousOrganizations => "religious_organizations"@,
            MerchantCategory::RoofingSidingSheetMetal => "roofing_siding_sheet_metal"@,
            MerchantCategory::SecretarialSupportServices => "secretarial_support_services"@,
            MerchantCategory::SecurityBrokersDealers => "security_brokers_dealers"@,
            MerchantCategory::ServiceStations => "service_stations"@,
            MerchantCategory::SewingNeedleworkFabricAndPieceGoodsStores => "sewing_needlework_fabric_and_piece_goods_stores"@,
            MerchantCategory::ShoeRepairHatCleaning => "shoe_repair_hat_cleaning"@,
            MerchantCategory::ShoeStores => "shoe_stores"@,
            MerchantCategory::SmallApplianceRepair => "small_appliance_repair"@,
            MerchantCategory::SnowmobileDealers => "snowmobile_dealers"@,
            MerchantCategory::SpecialTradeServices => "special_trade_services"@,
            MerchantCategory::SpecialtyCleaning => "specialty_cleaning"@,
            MerchantCategory::SportingGoodsStores => "sporting_goods_stores"@,
            MerchantCategory::SportingRecreationCamps => "sporting_recreation_camps"@,
            MerchantCategory::SportsAndRidingApparelStores => "sports_and_riding_apparel_stores"@,
            MerchantCategory::SportsClubsFields => "sports_clubs_fields"@,
            MerchantCategory::StampAndCoinStores => "stamp_and_coin_stores"@,
            MerchantCategory::StationaryOfficeSuppliesPrintingAndWritingPaper => "stationary_office_supplies_printing_and_writing_paper"@,
            MerchantCategory::StationeryStoresOfficeAndSchoolSupplyStores => "stationery_stores_office_and_school_supply_stores"@,
            MerchantCategory::SwimmingPoolsSales => "swimming_pools_sales"@,
            MerchantCategory::TUiTravelGermany => "tui_travel_germany"@,
            MerchantCategory::TailorsAlterations => "tailors_alterations"@,
            MerchantCategory::TaxPaymentsGovernmentAgencies => "tax_payments_government_agencies"@,
            MerchantCategory::TaxPreparationServices => "tax_preparation_services"@,
            MerchantCategory::TaxicabsLimousines => "taxicabs_limousines"@,
            MerchantCategory::TelecommunicationEquipmentAndTelephoneSales => "telecommunication_equipment_and_telephone_sales"@,
            MerchantCategory::TelecommunicationServices => "telecommunication_services"@,
            MerchantCategory::TelegraphServices => "telegraph_services"@,
            MerchantCategory::TentAndAwningShops => "tent_and_awning_shops"@,
            MerchantCategory::TestingLaboratories => "testing_laboratories"@,
            MerchantCategory::TheatricalTicketAgencies => "theatrical_ticket_agencies"@,
            MerchantCategory::Timeshares => "timeshares"@,
            MerchantCategory::TireRetreadingAndRepair => "tire_retreading_and_repair"@,
            MerchantCategory::TollsBridgeFees => "tolls_bridge_fees"@,
            MerchantCategory::TouristAttractionsAndExhibits => "tourist_attractions_and_exhibits"@,
            MerchantCategory::TowingServices => "towing_services"@,
            MerchantCategory::TrailerParksCampgrounds => "trailer_parks_campgrounds"@,
            MerchantCategory::TransportationServices => "transportation_services"@,
            MerchantCategory::TravelAgenciesTourOperators => "travel_agencies_tour_operators"@,
            MerchantCategory::TruckStopIteration => "truck_stop_iteration"@,
            MerchantCategory::TruckUtilityTrailerRentals => "truck_utility_trailer_rentals"@,
            MerchantCategory::TypesettingPlateMakingAndRelatedServices => "typesetting_plate_making_and_related_services"@,
            MerchantCategory::TypewriterStores => "typewriter_stores"@,
            MerchantCategory::USFederalGovernmentAgenciesOrDepartments => "u_s_federal_government_agencies_or_departments"@,
            MerchantCategory::UniformsCommercialClothing => "uniforms_commercial_clothing"@,
            MerchantCategory::UsedMerchandiseAndSecondhandStores => "used_merchandise_and_secondhand_stores"@,
            MerchantCategory::Utilities => "utilities"@,
            MerchantCategory::VarietyStores => "variety_stores"@,
            MerchantCategory::VeterinaryServices => "veterinary_services"@,
            MerchantCategory::VideoAmusementGameSupplies => "video_amusement_game_supplies"@,
            MerchantCategory::VideoGameArcades => "video_game_arcades"@,
            MerchantCategory::VideoTapeRentalStores => "video_tape_rental_stores"@,
            MerchantCategory::VocationalTradeSchools => "vocational_trade_schools"@,
            MerchantCategory::WatchJewelryRepair => "watch_jewelry_repair"@,
            MerchantCategory::WeldingRepair => "welding_repair"@,
            MerchantCategory::WholesaleClubs => "wholesale_clubs"@,
            MerchantCategory::WigAndToupeeStores => "wig_and_toupee_stores"@,
            MerchantCategory::WiresMoneyOrders => "wires_money_orders"@,
            MerchantCategory::WomensAccessoryAndSpecialtyShops => "womens_accessory_and_specialty_shops"@,
            MerchantCategory::WomensReadyToWearStores => "womens_ready_to_wear_stores"@,
            MerchantCategory::WreckingAndSalvageYards => "wrecking_and_salvage_yards"@,
        }
    }

    pub fn as_str(&self) -> (r: &'static str)
        ensures
            r@ == self.spec_str(),
    {
        match self {
            MerchantCategory::AcRefrigerationRepair => "ac_refrigeration_repair",
            MerchantCategory::AccountingBookkeepingServices => "accounting_bookkeeping_services",
            MerchantCategory::AdvertisingServices => "advertising_services",
            MerchantCategory::AgriculturalCooperative => "agricultural_cooperative",
            MerchantCategory::AirlinesAirCarriers => "airlines_air_carriers",
            MerchantCategory::AirportsFlyingFields => "airports_flying_fields",
            MerchantCategory::AmbulanceServices => "ambulance_services",
            MerchantCategory::AmusementParksCarnivals => "amusement_parks_carnivals",
            MerchantCategory::AntiqueReproductions => "antique_reproductions",
            MerchantCategory::AntiqueShops => "antique_shops",
            MerchantCategory::Aquariums => "aquariums",
            MerchantCategory::ArchitecturalSurveyingServices => "architectural_surveying_services",
            MerchantCategory::ArtDealersAndGalleries => "art_dealers_and_galleries",
            MerchantCategory::ArtistsSupplyAndCraftShops => "artists_supply_and_craft_shops",
            MerchantCategory::AutoAndHomeSupplyStores => "auto_and_home_supply_stores",
            MerchantCategory::AutoBodyRepairShops => "auto_body_repair_shops",
            MerchantCategory::AutoPaintShops => "auto_paint_shops",
            MerchantCategory::AutoServiceShops => "auto_service_shops",
            MerchantCategory::AutomatedCashDisburse => "automated_cash_disburse",
            MerchantCategory::AutomatedFuelDispensers => "automated_fuel_dispensers",
            MerchantCategory::AutomobileAssociations => "automobile_associations",
            MerchantCategory::AutomotivePartsAndAccessoriesStores => "automotive_parts_and_accessories_stores",
            MerchantCategory::AutomotiveTireStores => "automotive_tire_stores",
            MerchantCategory::BailAndBondPayments => "bail_and_bond_payments",
            MerchantCategory::Bakeries => "bakeries",
            MerchantCategory::BandsOrchestras => "bands_orchestras",
            MerchantCategory::BarberAndBeautyShops => "barber_and_beauty_shops",
            MerchantCategory::BettingCasinoGambling => "betting_casino_gambling",
            MerchantCategory::BicycleShops => "bicycle_shops",
            MerchantCategory::BilliardPoolEstablishments => "billiard_pool_establishments",
            MerchantCategory::BoatDealers => "boat_dealers",
            MerchantCategory::BoatRentalsAndLeases => "boat_rentals_and_leases",
            MerchantCategory::BookStores => "book_stores",
            MerchantCategory::BooksPeriodicalsAndNewspapers => "books_periodicals_and_newspapers",
            MerchantCategory::BowlingAlleys => "bowling_alleys",
            MerchantCategory::BusLines => "bus_lines",
            MerchantCategory::BusinessSecretarialSchools => "business_secretarial_schools",
            MerchantCategory::BuyingShoppingServices => "buying_shopping_services",
            MerchantCategory::CableSatelliteAndOtherPayTelevisionAndRadio => "cable_satellite_and_other_pay_television_and_radio",
            MerchantCategory::CameraAndPhotographicSupplyStores => "camera_and_photographic_supply_stores",
            MerchantCategory::CandyNutAndConfectioneryStores => "candy_nut_and_confectionery_stores",
            MerchantCategory::CarAndTruckDealersNewUsed => "car_and_truck_dealers_new_used",
            MerchantCategory::CarAndTruckDealersUsedOnly => "car_and_truck_dealers_used_only",
            MerchantCategory::CarRentalAgencies => "car_rental_agencies",
            MerchantCategory::CarWashes => "car_washes",
            MerchantCategory::CarpentryServices => "carpentry_services",
            MerchantCategory::CarpetUpholsteryCleaning => "carpet_upholstery_cleaning",
            MerchantCategory::Caterers => "caterers",
            MerchantCategory::CharitableAndSocialServiceOrganizationsFundraising => "charitable_and_social_service_organizations_fundraising",
            MerchantCategory::ChemicalsAndAlliedProducts => "chemicals_and_allied_products",
            MerchantCategory::ChidrensAndInfantsWearStores => "chidrens_and_infants_wear_stores",
            MerchantCategory::ChildCareServices => "child_care_services",
            MerchantCategory::ChiropodistsPodiatrists => "chiropodists_podiatrists",
            MerchantCategory::Chiropractors => "chiropractors",
            MerchantCategory::CigarStoresAndStands => "cigar_stores_and_stands",
            MerchantCategory::CivicSocialFraternalAssociations => "civic_social_fraternal_associations",
            MerchantCategory::CleaningAndMaintenance => "cleaning_and_maintenance",
            MerchantCategory::ClothingRental => "clothing_rental",
            MerchantCategory::CollegesUniversities => "colleges_universities",
            MerchantCategory::CommercialEquipment => "commercial_equipment",
            MerchantCategory::CommercialFootwear => "commercial_footwear",
            MerchantCategory::CommercialPhotographyArtAndGraphics => "commercial_photography_art_and_graphics",
            MerchantCategory::CommuterTransportAndFerries => "commuter_transport_and_ferries",
            MerchantCategory::ComputerNetworkServices => "computer_network_services",
            MerchantCategory::ComputerProgramming => "computer_programming",
            MerchantCategory::ComputerRepair => "computer_repair",
            MerchantCategory::ComputerSoftwareStores => "computer_software_stores",
            MerchantCategory::ComputersPeripheralsAndSoftware => "computers_peripherals_and_software",
            MerchantCategory::ConcreteWorkServices => "concrete_work_services",
            MerchantCategory::ConstructionMaterials => "construction_materials",
            MerchantCategory::ConsultingPublicRelations => "consulting_public_relations",
            MerchantCategory::CorrespondenceSchools => "correspondence_schools",
            MerchantCategory::CosmeticStores => "cosmetic_stores",
            MerchantCategory::CounselingServices => "counseling_services",
            MerchantCategory::CountryClubs => "country_clubs",
            MerchantCategory::CourierServices => "courier_services",
            MerchantCategory::CourtCosts => "court_costs",
            MerchantCategory::CreditReportingAgencies => "credit_reporting_agencies",
            MerchantCategory::CruiseLines => "cruise_lines",
            MerchantCategory::DairyProductsStores => "dairy_products_stores",
            MerchantCategory::DanceHallStudiosSchools => "dance_hall_studios_schools",
            MerchantCategory::DatingEscortServices => "dating_escort_services",
            MerchantCategory::DentistsOrthodontists => "dentists_orthodontists",
            MerchantCategory::DepartmentStores => "department_stores",
            MerchantCategory::DetectiveAgencies => "detective_agencies",
            MerchantCategory::DirectMarketingCatalogMerchant => "direct_marketing_catalog_merchant",
            MerchantCategory::DirectMarketingCombinationCatalogAndRetailMerchant => "direct_marketing_combination_catalog_and_retail_merchant",
            MerchantCategory::DirectMarketingInboundTelemarketing => "direct_marketing_inbound_telemarketing",
            MerchantCategory::DirectMarketingInsuranceServices => "direct_marketing_insurance_services",
            MerchantCategory::DirectMarketingOther => "direct_marketing_other",
            MerchantCategory::DirectMarketingOutboundTelemarketing => "direct_marketing_outbound_telemarketing",
            MerchantCategory::DirectMarketingSubscription => "direct_marketing_subscription",
            MerchantCategory::DirectMarketingTravel => "direct_marketing_travel",
            MerchantCategory::DiscountStores => "discount_stores",
            MerchantCategory::Doctors => "doctors",
            MerchantCategory::DoorToDoorSales => "door_to_door_sales",
            MerchantCategory::DraperyWindowCoveringAndUpholsteryStores => "drapery_window_covering_and_upholstery_stores",
            MerchantCategory::DrinkingPlaces => "drinking_places",
            MerchantCategory::DrugStoresAndPharmacies => "drug_stores_and_pharmacies",
            MerchantCategory::DrugsDrugProprietariesAndDruggistSundries => "drugs_drug_proprietaries_and_druggist_sundries",
            MerchantCategory::DryCleaners => "dry_cleaners",
            MerchantCategory::DurableGoods => "durable_goods",
            MerchantCategory::DutyFreeStores => "duty_free_stores",
            MerchantCategory::EatingPlacesRestaurants => "eating_places_restaurants",
            MerchantCategory::EducationalServices => "educational_services",
            MerchantCategory::ElectricRazorStores => "electric_razor_stores",
            MerchantCategory::ElectricalPartsAndEquipment => "electrical_parts_and_equipment",
            MerchantCategory::ElectricalServices => "electrical_services",
            MerchantCategory::ElectronicsRepairShops => "electronics_repair_shops",
            MerchantCategory::ElectronicsStores => "electronics_stores",
            MerchantCategory::ElementarySecondarySchools => "elementary_secondary_schools",
            MerchantCategory::EmploymentTempAgencies => "employment_temp_agencies",
            MerchantCategory::EquipmentRental => "equipment_rental",
            MerchantCategory::ExterminatingServices => "exterminating_services",
            MerchantCategory::FamilyClothingStores => "family_clothing_stores",
            MerchantCategory::FastFoodRestaurants => "fast_food_restaurants",
            MerchantCategory::FinancialInstitutions => "financial_institutions",
            MerchantCategory::FinesGovernmentAdministrativeEntities => "fines_government_administrative_entities",
            MerchantCategory::FireplaceFireplaceScreensAndAccessoriesStores => "fireplace_fireplace_screens_and_accessories_stores",
            MerchantCategory::FloorCoveringStores => "floor_covering_stores",
            MerchantCategory::Florists => "florists",
            MerchantCategory::FloristsSuppliesNurseryStockAndFlowers => "florists_supplies_nursery_stock_and_flowers",
            MerchantCategory::FreezerAndLockerMeatProvisioners => "freezer_and_locker_meat_provisioners",
            MerchantCategory::FuelDealersNonAutomotive => "fuel_dealers_non_automotive",
            MerchantCategory::FuneralServicesCrematories => "funeral_services_crematories",
            MerchantCategory::FurnitureHomeFurnishingsAndEquipmentStoresExceptAppliances => "furniture_home_furnishings_and_equipment_stores_except_appliances",
            MerchantCategory::FurnitureRepairRefinishing => "furniture_repair_refinishing",
            MerchantCategory::FurriersAndFurShops => "furriers_and_fur_shops",
            MerchantCategory::GeneralServices => "general_services",
            MerchantCategory::GiftCardNoveltyAndSouvenirShops => "gift_card_novelty_and_souvenir_shops",
            MerchantCategory::GlassPaintAndWallpaperStores => "glass_paint_and_wallpaper_stores",
            MerchantCategory::GlasswareCrystalStores => "glassware_crystal_stores",
            MerchantCategory::GolfCoursesPublic => "golf_courses_public",
            MerchantCategory::GovernmentServices => "government_services",
            MerchantCategory::GroceryStoresSupermarkets => "grocery_stores_supermarkets",
            MerchantCategory::HardwareEquipmentAndSupplies => "hardware_equipment_and_supplies",
            MerchantCategory::HardwareStores => "hardware_stores",
            MerchantCategory::HealthAndBeautySpas => "health_and_beauty_spas",
            MerchantCategory::HearingAidsSalesAndSupplies => "hearing_aids_sales_and_supplies",
            MerchantCategory::HeatingPlumbingAC => "heating_plumbing_a_c",
            MerchantCategory::HobbyToyAndGameShops => "hobby_toy_and_game_shops",
            MerchantCategory::HomeSupplyWarehouseStores => "home_supply_warehouse_stores",
            MerchantCategory::Hospitals => "hospitals",
            MerchantCategory::HotelsMotelsAndResorts => "hotels_motels_and_resorts",
            MerchantCategory::HouseholdApplianceStores => "household_appliance_stores",
            MerchantCategory::IndustrialSupplies => "industrial_supplies",
            MerchantCategory::InformationRetrievalServices => "information_retrieval_services",
            MerchantCategory::InsuranceDefault => "insurance_default",
            MerchantCategory::InsuranceUnderwritingPremiums => "insurance_underwriting_premiums",
            MerchantCategory::IntraCompanyPurchases => "intra_company_purchases",
            MerchantCategory::JewelryStoresWatchesClocksAndSilverwareStores => "jewelry_stores_watches_clocks_and_silverware_stores",
            MerchantCategory::LandscapingServices => "landscaping_services",
            MerchantCategory::Laundries => "laundries",
            MerchantCategory::LaundryCleaningServices => "laundry_cleaning_services",
            MerchantCategory::LegalServicesAttorneys => "legal_services_attorneys",
            MerchantCategory::LuggageAndLeatherGoodsStores => "luggage_and_leather_goods_stores",
            MerchantCategory::LumberBuildingMaterialsStores => "lumber_building_materials_stores",
            MerchantCategory::ManualCashDisburse => "manual_cash_disburse",
            MerchantCategory::MarinasServiceAndSupplies => "marinas_service_and_supplies",
            MerchantCategory::MasonryStoneworkAndPlaster => "masonry_stonework_and_plaster",
            MerchantCategory::MassageParlors => "massage_parlors",
            MerchantCategory::MedicalAndDentalLabs => "medical_and_dental_labs",
            MerchantCategory::MedicalDentalOphthalmicAndHospitalEquipmentAndSupplies => "medical_dental_ophthalmic_and_hospital_equipment_and_supplies",
            MerchantCategory::MedicalServices => "medical_services",
            MerchantCategory::MembershipOrganizations => "membership_organizations",
            MerchantCategory::MensAndBoysClothingAndAccessoriesStores => "mens_and_boys_clothing_and_accessories_stores",
            MerchantCategory::MensWomensClothingStores => "mens_womens_clothing_stores",
            MerchantCategory::MetalServiceCenters => "metal_service_centers",
            MerchantCategory::Miscellaneous => "miscellaneous",
            MerchantCategory::MiscellaneousApparelAndAccessoryShops => "miscellaneous_apparel_and_accessory_shops",
            MerchantCategory::MiscellaneousAutoDealers => "miscellaneous_auto_dealers",
            MerchantCategory::MiscellaneousBusinessServices => "miscellaneous_business_services",
            MerchantCategory::MiscellaneousFoodStores => "miscellaneous_food_stores",
            MerchantCategory::MiscellaneousGeneralMerchandise => "miscellaneous_general_merchandise",
            MerchantCategory::MiscellaneousGeneralServices => "miscellaneous_general_services",
            MerchantCategory::MiscellaneousHomeFurnishingSpecialtyStores => "miscellaneous_home_furnishing_specialty_stores",
            MerchantCategory::MiscellaneousPublishingAndPrinting => "miscellaneous_publishing_and_printing",
            MerchantCategory::MiscellaneousRecreationServices => "miscellaneous_recreation_services",
            MerchantCategory::MiscellaneousRepairShops => "miscellaneous_repair_shops",
            MerchantCategory::MiscellaneousSpecialtyRetail => "miscellaneous_specialty_retail",
            MerchantCategory::MobileHomeDealers => "mobile_home_dealers",
            MerchantCategory::MotionPictureTheaters => "motion_picture_theaters",
            MerchantCategory::MotorFreightCarriersAndTrucking => "motor_freight_carriers_and_trucking",
            MerchantCategory::MotorHomesDealers => "motor_homes_dealers",
            MerchantCategory::MotorVehicleSuppliesAndNewParts => "motor_vehicle_supplies_and_new_parts",
            MerchantCategory::MotorcycleShopsAndDealers => "motorcycle_shops_and_dealers",
            MerchantCategory::MotorcycleShopsDealers => "motorcycle_shops_dealers",
            MerchantCategory::MusicStoresMusicalInstrumentsPianosAndSheetMusic => "music_stores_musical_instruments_pianos_and_sheet_music",
            MerchantCategory::NewsDealersAndNewsstands => "news_dealers_and_newsstands",
            MerchantCategory::NonFiMoneyOrders => "non_fi_money_orders",
            MerchantCategory::NonFiStoredValueCardPurchaseLoad => "non_fi_stored_value_card_purchase_load",
            MerchantCategory::NondurableGoods => "nondurable_goods",
            MerchantCategory::NurseriesLawnAndGardenSupplyStores => "nurseries_lawn_and_garden_supply_stores",
            MerchantCategory::NursingPersonalCare => "nursing_personal_care",
            MerchantCategory::OfficeAndCommercialFurniture => "office_and_commercial_furniture",
            MerchantCategory::OpticiansEyeglasses => "opticians_eyeglasses",
            MerchantCategory::OptometristsOphthalmologist => "optometrists_ophthalmologist",
            MerchantCategory::OrthopedicGoodsProstheticDevices => "orthopedic_goods_prosthetic_devices",
            MerchantCategory::Osteopaths => "osteopaths",
            MerchantCategory::PackageStoresBeerWineAndLiquor => "package_stores_beer_wine_and_liquor",
            MerchantCategory::PaintsVarnishesAndSupplies => "paints_varnishes_and_supplies",
            MerchantCategory::ParkingLotsGarages => "parking_lots_garages",
            MerchantCategory::PassengerRailways => "passenger_railways",
            MerchantCategory::PawnShops => "pawn_shops",
            MerchantCategory::PetShopsPetFoodAndSupplies => "pet_shops_pet_food_and_supplies",
            MerchantCategory::PetroleumAndPetroleumProducts => "petroleum_and_petroleum_products",
            MerchantCategory::PhotoDeveloping => "photo_developing",
            MerchantCategory::PhotographicPhotocopyMicrofilmEquipmentAndSupplies => "photographic_photocopy_microfilm_equipment_and_supplies",
            MerchantCategory::PhotographicStudios => "photographic_studios",
            MerchantCategory::PictureVideoProduction => "picture_video_production",
            MerchantCategory::PieceGoodsNotionsAndOtherDryGoods => "piece_goods_notions_and_other_dry_goods",
            MerchantCategory::PlumbingHeatingEquipmentAndSupplies => "plumbing_heating_equipment_and_supplies",
            MerchantCategory::PoliticalOrganizations => "political_organizations",
            MerchantCategory::PostalServicesGovernmentOnly => "postal_services_government_only",
            MerchantCategory::PreciousStonesAndMetalsWatchesAndJewelry => "precious_stones_and_metals_watches_and_jewelry",
            MerchantCategory::ProfessionalServices => "professional_services",
            MerchantCategory::PublicWarehousingAndStorage => "public_warehousing_and_storage",
            MerchantCategory::QuickCopyReproAndBlueprint => "quick_copy_repro_and_blueprint",
            MerchantCategory::Railroads => "railroads",
            MerchantCategory::RealEstateAgentsAndManagersRentals => "real_estate_agents_and_managers_rentals",
            MerchantCategory::RecordStores => "record_stores",
            MerchantCategory::RecreationalVehicleRentals => "recreational_vehicle_rentals",
            MerchantCategory::ReligiousGoodsStores => "religious_goods_stores",
            MerchantCategory::ReligiousOrganizations => "religious_organizations",
            MerchantCategory::RoofingSidingSheetMetal => "roofing_siding_sheet_metal",
            MerchantCategory::SecretarialSupportServices => "secretarial_support_services",
            MerchantCategory::SecurityBrokersDealers => "security_brokers_dealers",
            MerchantCategory::ServiceStations => "service_stations",
            MerchantCategory::SewingNeedleworkFabricAndPieceGoodsStores => "sewing_needlework_fabric_and_piece_goods_stores",
            MerchantCategory::ShoeRepairHatCleaning => "shoe_repair_hat_cleaning",
            MerchantCategory::ShoeStores => "shoe_stores",
            MerchantCategory::SmallApplianceRepair => "small_appliance_repair",
            MerchantCategory::SnowmobileDealers => "snowmobile_dealers",
            MerchantCategory::SpecialTradeServices => "special_trade_services",
            MerchantCategory::SpecialtyCleaning => "specialty_cleaning",
            MerchantCategory::SportingGoodsStores => "sporting_goods_stores",
            MerchantCategory::SportingRecreationCamps => "sporting_recreation_camps",
            MerchantCategory::SportsAndRidingApparelStores => "sports_and_riding_apparel_stores",
            MerchantCategory::SportsClubsFields => "sports_clubs_fields",
            MerchantCategory::StampAndCoinStores => "stamp_and_coin_stores",
            MerchantCategory::StationaryOfficeSuppliesPrintingAndWritingPaper => "stationary_office_supplies_printing_and_writing_paper",
            MerchantCategory::StationeryStoresOfficeAndSchoolSupplyStores => "stationery_stores_office_and_school_supply_stores",
            MerchantCategory::SwimmingPoolsSales => "swimming_pools_sales",
            MerchantCategory::TUiTravelGermany => "tui_travel_germany",
            MerchantCategory::TailorsAlterations => "tailors_alterations",
            MerchantCategory::TaxPaymentsGovernmentAgencies => "tax_payments_government_agencies",
            MerchantCategory::TaxPreparationServices => "tax_preparation_services",
            MerchantCategory::TaxicabsLimousines => "taxicabs_limousines",
            MerchantCategory::TelecommunicationEquipmentAndTelephoneSales => "telecommunication_equipment_and_telephone_sales",
            MerchantCategory::TelecommunicationServices => "telecommunication_services",
            MerchantCategory::TelegraphServices => "telegraph_services",
            MerchantCategory::TentAndAwningShops => "tent_and_awning_shops",
            MerchantCategory::TestingLaboratories => "testing_laboratories",
            MerchantCategory::TheatricalTicketAgencies => "theatrical_ticket_agencies",
            MerchantCategory::Timeshares => "timeshares",
            MerchantCategory::TireRetreadingAndRepair => "tire_retreading_and_repair",
            MerchantCategory::TollsBridgeFees => "tolls_bridge_fees",
            MerchantCategory::TouristAttractionsAndExhibits => "tourist_attractions_and_exhibits",
            MerchantCategory::TowingServices => "towing_services",
            MerchantCategory::TrailerParksCampgrounds => "trailer_parks_campgrounds",
            MerchantCategory::TransportationServices => "transportation_services",
            MerchantCategory::TravelAgenciesTourOperators => "travel_agencies_tour_operators",
            MerchantCategory::TruckStopIteration => "truck_stop_iteration",
            MerchantCategory::TruckUtilityTrailerRentals => "truck_utility_trailer_rentals",
            MerchantCategory::TypesettingPlateMakingAndRelatedServices => "typesetting_plate_making_and_related_services",
            MerchantCategory::TypewriterStores => "typewriter_stores",
            MerchantCategory::USFederalGovernmentAgenciesOrDepartments => "u_s_federal_government_agencies_or_departments",
            MerchantCategory::UniformsCommercialClothing => "uniforms_commercial_clothing",
            MerchantCategory::UsedMerchandiseAndSecondhandStores => "used_merchandise_and_secondhand_stores",
            MerchantCategory::Utilities => "utilities",
            MerchantCategory::VarietyStores => "variety_stores",
            MerchantCategory::VeterinaryServices => "veterinary_services",
            MerchantCategory::VideoAmusementGameSupplies => "video_amusement_game_supplies",
            MerchantCategory::VideoGameArcades => "video_game_arcades",
            MerchantCategory::VideoTapeRentalStores => "video_tape_rental_stores",
            MerchantCategory::VocationalTradeSchools => "vocational_trade_schools",
            MerchantCategory::WatchJewelryRepair => "watch_jewelry_repair",
            MerchantCategory::WeldingRepair => "welding_repair",
            MerchantCategory::WholesaleClubs => "wholesale_clubs",
            MerchantCategory::WigAndToupeeStores => "wig_and_toupee_stores",
            MerchantCategory::WiresMoneyOrders => "wires_money_orders",
            MerchantCategory::WomensAccessoryAndSpecialtyShops => "womens_accessory_and_specialty_shops",
            MerchantCategory::WomensReadyToWearStores => "womens_ready_to_wear_stores",
            MerchantCategory::WreckingAndSalvageYards => "wrecking_and_salvage_yards",
        }
    }

    pub fn to_json(&self) -> (r: Json)
        ensures
            r@ == JsonV::Str(self.spec_str()),
    {
        Json::Str(String::from_str(self.as_str()))
    }

    /// The value that the service names `s`, if any.
    pub open spec fn spec_from_str(s: Seq<char>) -> Option<MerchantCategory> {
        if s == "ac_refrigeration_repair"@ {
            Some(MerchantCategory::AcRefrigerationRepair)
        } else if s == "accounting_bookkeeping_services"@ {
            Some(MerchantCategory::AccountingBookkeepingServices)
        } else if s == "advertising_services"@ {
            Some(MerchantCategory::AdvertisingServices)
        } else if s == "agricultural_cooperative"@ {
            Some(MerchantCategory::AgriculturalCooperative)
        } else if s == "airlines_air_carriers"@ {
            Some(MerchantCategory::AirlinesAirCarriers)
        } else if s == "airports_flying_fields"@ {
            Some(MerchantCategory::AirportsFlyingFields)
        } else if s == "ambulance_services"@ {
            Some(MerchantCategory::AmbulanceServices)
        } else if s == "amusement_parks_carnivals"@ {
            Some(MerchantCategory::AmusementParksCarnivals)
        } else if s == "antique_reproductions"@ {
            Some(MerchantCategory::AntiqueReproductions)
        } else if s == "antique_shops"@ {
            Some(MerchantCategory::AntiqueShops)
        } else if s == "aquariums"@ {
            Some(MerchantCategory::Aquariums)
        } else if s == "architectural_surveying_services"@ {
            Some(MerchantCategory::ArchitecturalSurveyingServices)
        } else if s == "art_dealers_and_galleries"@ {
            Some(MerchantCategory::ArtDealersAndGalleries)
        } else if s == "artists_supply_and_craft_shops"@ {
            Some(MerchantCategory::ArtistsSupplyAndCraftShops)
        } else if s == "auto_and_home_supply_stores"@ {
            Some(MerchantCategory::AutoAndHomeSupplyStores)
        } else if s == "auto_body_repair_shops"@ {
            Some(MerchantCategory::AutoBodyRepairShops)
        } else if s == "auto_paint_shops"@ {
            Some(MerchantCategory::AutoPaintShops)
        } else if s == "auto_service_shops"@ {
            Some(MerchantCategory::AutoServiceShops)
        } else if s == "automated_cash_disburse"@ {
            Some(MerchantCategory::AutomatedCashDisburse)
        } else if s == "automated_fuel_dispensers"@ {
            Some(MerchantCategory::AutomatedFuelDispensers)
        } else if s == "automobile_associations"@ {
            Some(MerchantCategory::AutomobileAssociations)
        } else if s == "automotive_parts_and_accessories_stores"@ {
            Some(MerchantCategory::AutomotivePartsAndAccessoriesStores)
        } else if s == "automotive_tire_stores"@ {
            Some(MerchantCategory::AutomotiveTireStores)
        } else if s == "bail_and_bond_payments"@ {
            Some(MerchantCategory::BailAndBondPayments)
        } else if s == "bakeries"@ {
            Some(MerchantCategory::Bakeries)
        } else if s == "bands_orchestras"@ {
            Some(MerchantCategory::BandsOrchestras)
        } else if s == "barber_and_beauty_shops"@ {
            Some(MerchantCategory::BarberAndBeautyShops)
        } else if s == "betting_casino_gambling"@ {
            Some(MerchantCategory::BettingCasinoGambling)
        } else if s == "bicycle_shops"@ {
            Some(MerchantCategory::BicycleShops)
        } else if s == "billiard_pool_establishments"@ {
            Some(MerchantCategory::BilliardPoolEstablishments)
        } else if s == "boat_dealers"@ {
            Some(MerchantCategory::BoatDealers)
        } else if s == "boat_rentals_and_leases"@ {
            Some(MerchantCategory::BoatRentalsAndLeases)
        } else if s == "book_stores"@ {
            Some(MerchantCategory::BookStores)
        } else if s == "books_periodicals_and_newspapers"@ {
            Some(MerchantCategory::BooksPeriodicalsAndNewspapers)
        } else if s == "bowling_alleys"@ {
            Some(MerchantCategory::BowlingAlleys)
        } else if s == "bus_lines"@ {
            Some(MerchantCategory::BusLines)
        } else if s == "business_secretarial_schools"@ {
            Some(MerchantCategory::BusinessSecretarialSchools)
        } else if s == "buying_shopping_services"@ {
            Some(MerchantCategory::BuyingShoppingServices)
        } else if s == "cable_satellite_and_other_pay_television_and_radio"@ {
            Some(MerchantCategory::CableSatelliteAndOtherPayTelevisionAndRadio)
        } else if s == "camera_and_photographic_supply_stores"@ {
            Some(MerchantCategory::CameraAndPhotographicSupplyStores)
        } else if s == "candy_nut_and_confectionery_stores"@ {
            Some(MerchantCategory::CandyNutAndConfectioneryStores)
        } else if s == "car_and_truck_dealers_new_used"@ {
            Some(MerchantCategory::CarAndTruckDealersNewUsed)
        } else if s == "car_and_truck_dealers_used_only"@ {
            Some(MerchantCategory::CarAndTruckDealersUsedOnly)
        } else if s == "car_rental_agencies"@ {
            Some(MerchantCategory::CarRentalAgencies)
        } else if s == "car_washes"@ {
            Some(MerchantCategory::CarWashes)
        } else if s == "carpentry_services"@ {
            Some(MerchantCategory::CarpentryServices)
        } else if s == "carpet_upholstery_cleaning"@ {
            Some(MerchantCategory::CarpetUpholsteryCleaning)
        } else if s == "caterers"@ {
            Some(MerchantCategory::Caterers)
        } else if s == "charitable_and_social_service_organizations_fundraising"@ {
            Some(MerchantCategory::CharitableAndSocialServiceOrganizationsFundraising)
        } else if s == "chemicals_and_allied_products"@ {
            Some(MerchantCategory::ChemicalsAndAlliedProducts)
        } else if s == "chidrens_and_infants_wear_stores"@ {
            Some(MerchantCategory::ChidrensAndInfantsWearStores)
        } else if s == "child_care_services"@ {
            Some(MerchantCategory::ChildCareServices)
        } else if s == "chiropodists_podiatrists"@ {
            Some(MerchantCategory::ChiropodistsPodiatrists)
        } else if s == "chiropractors"@ {
            Some(MerchantCategory::Chiropractors)
        } else if s == "cigar_stores_and_stands"@ {
            Some(MerchantCategory::CigarStoresAndStands)
        } else if s == "civic_social_fraternal_associations"@ {
            Some(MerchantCategory::CivicSocialFraternalAssociations)
        } else if s == "cleaning_and_maintenance"@ {
            Some(MerchantCategory::CleaningAndMaintenance)
        } else if s == "clothing_rental"@ {
            Some(MerchantCategory::ClothingRental)
        } else if s == "colleges_universities"@ {
            Some(MerchantCategory::CollegesUniversities)
        } else if s == "commercial_equipment"@ {
            Some(MerchantCategory::CommercialEquipment)
        } else if s == "commercial_footwear"@ {
            Some(MerchantCategory::CommercialFootwear)
        } else if s == "commercial_photography_art_and_graphics"@ {
            Some(MerchantCategory::CommercialPhotographyArtAndGraphics)
        } else if s == "commuter_transport_and_ferries"@ {
            Some(MerchantCategory::CommuterTransportAndFerries)
        } else if s == "computer_network_services"@ {
            Some(MerchantCategory::ComputerNetworkServices)
        } else if s == "computer_programming"@ {
            Some(MerchantCategory::ComputerProgramming)
        } else if s == "computer_repair"@ {
            Some(MerchantCategory::ComputerRepair)
        } else if s == "computer_software_stores"@ {
            Some(MerchantCategory::ComputerSoftwareStores)
        } else if s == "computers_peripherals_and_software"@ {
            Some(MerchantCategory::ComputersPeripheralsAndSoftware)
        } else if s == "concrete_work_services"@ {
            Some(MerchantCategory::ConcreteWorkServices)
        } else if s == "construction_materials"@ {
            Some(MerchantCategory::ConstructionMaterials)
        } else if s == "consulting_public_relations"@ {
            Some(MerchantCategory::ConsultingPublicRelations)
        } else if s == "correspondence_schools"@ {
            Some(MerchantCategory::CorrespondenceSchools)
        } else if s == "cosmetic_stores"@ {
            Some(MerchantCategory::CosmeticStores)
        } else if s == "counseling_services"@ {
            Some(MerchantCategory::CounselingServices)
        } else if s == "country_clubs"@ {
            Some(MerchantCategory::CountryClubs)
        } else if s == "courier_services"@ {
            Some(MerchantCategory::CourierServices)
        } else if s == "court_costs"@ {
            Some(MerchantCategory::CourtCosts)
        } else if s == "credit_reporting_agencies"@ {
            Some(MerchantCategory::CreditReportingAgencies)
        } else if s == "cruise_lines"@ {
            Some(MerchantCategory::CruiseLines)
        } else if s == "dairy_products_stores"@ {
            Some(MerchantCategory::DairyProductsStores)
        } else if s == "dance_hall_studios_schools"@ {
            Some(MerchantCategory::DanceHallStudiosSchools)
        } else if s == "dating_escort_services"@ {
            Some(MerchantCategory::DatingEscortServices)
        } else if s == "dentists_orthodontists"@ {
            Some(MerchantCategory::DentistsOrthodontists)
        } else if s == "department_stores"@ {
            Some(MerchantCategory::DepartmentStores)
        } else if s == "detective_agencies"@ {
            Some(MerchantCategory::DetectiveAgencies)
        } else if s == "direct_marketing_catalog_merchant"@ {
            Some(MerchantCategory::DirectMarketingCatalogMerchant)
        } else if s == "direct_marketing_combination_catalog_and_retail_merchant"@ {
            Some(MerchantCategory::DirectMarketingCombinationCatalogAndRetailMerchant)
        } else if s == "direct_marketing_inbound_telemarketing"@ {
            Some(MerchantCategory::DirectMarketingInboundTelemarketing)
        } else if s == "direct_marketing_insurance_services"@ {
            Some(MerchantCategory::DirectMarketingInsuranceServices)
        } else if s == "direct_marketing_other"@ {
            Some(MerchantCategory::DirectMarketingOther)
        } else if s == "direct_marketing_outbound_telemarketing"@ {
            Some(MerchantCategory::DirectMarketingOutboundTelemarketing)
        } else if s == "direct_marketing_subscription"@ {
            Some(MerchantCategory::DirectMarketingSubscription)
        } else if s == "direct_marketing_travel"@ {
            Some(MerchantCategory::DirectMarketingTravel)
        } else if s == "discount_stores"@ {
            Some(MerchantCategory::DiscountStores)
        } else if s == "doctors"@ {
            Some(MerchantCategory::Doctors)
        } else if s == "door_to_door_sales"@ {
            Some(MerchantCategory::DoorToDoorSales)
        } else if s == "drapery_window_covering_and_upholstery_stores"@ {
            Some(MerchantCategory::DraperyWindowCoveringAndUpholsteryStores)
        } else if s == "drinking_places"@ {
            Some(MerchantCategory::DrinkingPlaces)
        } else if s == "drug_stores_and_pharmacies"@ {
            Some(MerchantCategory::DrugStoresAndPharmacies)
        } else if s == "drugs_drug_proprietaries_and_druggist_sundries"@ {
            Some(MerchantCategory::DrugsDrugProprietariesAndDruggistSundries)
        } else if s == "dry_cleaners"@ {
            Some(MerchantCategory::DryCleaners)
        } else if s == "durable_goods"@ {
            Some(MerchantCategory::DurableGoods)
        } else if s == "duty_free_stores"@ {
            Some(MerchantCategory::DutyFreeStores)
        } else if s == "eating_places_restaurants"@ {
            Some(MerchantCategory::EatingPlacesRestaurants)
        } else if s == "educational_services"@ {
            Some(MerchantCategory::EducationalServices)
        } else if s == "electric_razor_stores"@ {
            Some(MerchantCategory::ElectricRazorStores)
        } else if s == "electrical_parts_and_equipment"@ {
            Some(MerchantCategory::ElectricalPartsAndEquipment)
        } else if s == "electrical_services"@ {
            Some(MerchantCategory::ElectricalServices)
        } else if s == "electronics_repair_shops"@ {
            Some(MerchantCategory::ElectronicsRepairShops)
        } else if s == "electronics_stores"@ {
            Some(MerchantCategory::ElectronicsStores)
        } else if s == "elementary_secondary_schools"@ {
            Some(MerchantCategory::ElementarySecondarySchools)
        } else if s == "employment_temp_agencies"@ {
            Some(MerchantCategory::EmploymentTempAgencies)
        } else if s == "equipment_rental"@ {
            Some(MerchantCategory::EquipmentRental)
        } else if s == "exterminating_services"@ {
            Some(MerchantCategory::ExterminatingServices)
        } else if s == "family_clothing_stores"@ {
            Some(MerchantCategory::FamilyClothingStores)
        } else if s == "fast_food_restaurants"@ {
            Some(MerchantCategory::FastFoodRestaurants)
        } else if s == "financial_institutions"@ {
            Some(MerchantCategory::FinancialInstitutions)
        } else if s == "fines_government_administrative_entities"@ {
            Some(MerchantCategory::FinesGovernmentAdministrativeEntities)
        } else if s == "fireplace_fireplace_screens_and_accessories_stores"@ {
            Some(MerchantCategory::FireplaceFireplaceScreensAndAccessoriesStores)
        } else if s == "floor_covering_stores"@ {
            Some(MerchantCategory::FloorCoveringStores)
        } else if s == "florists"@ {
            Some(MerchantCategory::Florists)
        } else if s == "florists_supplies_nursery_stock_and_flowers"@ {
            Some(MerchantCategory::FloristsSuppliesNurseryStockAndFlowers)
        } else if s == "freezer_and_locker_meat_provisioners"@ {
            Some(MerchantCategory::FreezerAndLockerMeatProvisioners)
        } else if s == "fuel_dealers_non_automotive"@ {
            Some(MerchantCategory::FuelDealersNonAutomotive)
        } else if s == "funeral_services_crematories"@ {
            Some(MerchantCategory::FuneralServicesCrematories)
        } else if s == "furniture_home_furnishings_and_equipment_stores_except_appliances"@ {
            Some(MerchantCategory::FurnitureHomeFurnishingsAndEquipmentStoresExceptAppliances)
        } else if s == "furniture_repair_refinishing"@ {
            Some(MerchantCategory::FurnitureRepairRefinishing)
        } else if s == "furriers_and_fur_shops"@ {
            Some(MerchantCategory::FurriersAndFurShops)
        } else if s == "general_services"@ {
            Some(MerchantCategory::GeneralServices)
        } else if s == "gift_card_novelty_and_souvenir_shops"@ {
            Some(MerchantCategory::GiftCardNoveltyAndSouvenirShops)
        } else if s == "glass_paint_and_wallpaper_stores"@ {
            Some(MerchantCategory::GlassPaintAndWallpaperStores)
        } else if s == "glassware_crystal_stores"@ {
            Some(MerchantCategory::GlasswareCrystalStores)
        } else if s == "golf_courses_public"@ {
            Some(MerchantCategory::GolfCoursesPublic)
        } else if s == "government_services"@ {
            Some(MerchantCategory::GovernmentServices)
        } else if s == "grocery_stores_supermarkets"@ {
            Some(MerchantCategory::GroceryStoresSupermarkets)
        } else if s == "hardware_equipment_and_supplies"@ {
            Some(MerchantCategory::HardwareEquipmentAndSupplies)
        } else if s == "hardware_stores"@ {
            Some(MerchantCategory::HardwareStores)
        } else if s == "health_and_beauty_spas"@ {
            Some(MerchantCategory::HealthAndBeautySpas)
        } else if s == "hearing_aids_sales_and_supplies"@ {
            Some(MerchantCategory::HearingAidsSalesAndSupplies)
        } else if s == "heating_plumbing_a_c"@ {
            Some(MerchantCategory::HeatingPlumbingAC)
        } else if s == "hobby_toy_and_game_shops"@ {
            Some(MerchantCategory::HobbyToyAndGameShops)
        } else if s == "home_supply_warehouse_stores"@ {
            Some(MerchantCategory::HomeSupplyWarehouseStores)
        } else if s == "hospitals"@ {
            Some(MerchantCategory::Hospitals)
        } else if s == "hotels_motels_and_resorts"@ {
            Some(MerchantCategory::HotelsMotelsAndResorts)
        } else if s == "household_appliance_stores"@ {
            Some(MerchantCategory::HouseholdApplianceStores)
        } else if s == "industrial_supplies"@ {
            Some(MerchantCategory::IndustrialSupplies)
        } else if s == "information_retrieval_services"@ {
            Some(MerchantCategory::InformationRetrievalServices)
        } else if s == "insurance_default"@ {
            Some(MerchantCategory::InsuranceDefault)
        } else if s == "insurance_underwriting_premiums"@ {
            Some(MerchantCategory::InsuranceUnderwritingPremiums)
        } else if s == "intra_company_purchases"@ {
            Some(MerchantCategory::IntraCompanyPurchases)
        } else if s == "jewelry_stores_watches_clocks_and_silverware_stores"@ {
            Some(MerchantCategory::JewelryStoresWatchesClocksAndSilverwareStores)
        } else if s == "landscaping_services"@ {
            Some(MerchantCategory::LandscapingServices)
        } else if s == "laundries"@ {
            Some(MerchantCategory::Laundries)
        } else if s == "laundry_cleaning_services"@ {
            Some(MerchantCategory::LaundryCleaningServices)
        } else if s == "legal_services_attorneys"@ {
            Some(MerchantCategory::LegalServicesAttorneys)
        } else if s == "luggage_and_leather_goods_stores"@ {
            Some(MerchantCategory::LuggageAndLeatherGoodsStores)
        } else if s == "lumber_building_materials_stores"@ {
            Some(MerchantCategory::LumberBuildingMaterialsStores)
        } else if s == "manual_cash_disburse"@ {
            Some(MerchantCategory::ManualCashDisburse)
        } else if s == "marinas_service_and_supplies"@ {
            Some(MerchantCategory::MarinasServiceAndSupplies)
        } else if s == "masonry_stonework_and_plaster"@ {
            Some(MerchantCategory::MasonryStoneworkAndPlaster)
        } else if s == "massage_parlors"@ {
            Some(MerchantCategory::MassageParlors)
        } else if s == "medical_and_dental_labs"@ {
            Some(MerchantCategory::MedicalAndDentalLabs)
        } else if s == "medical_dental_ophthalmic_and_hospital_equipment_and_supplies"@ {
            Some(MerchantCategory::MedicalDentalOphthalmicAndHospitalEquipmentAndSupplies)
        } else if s == "medical_services"@ {
            Some(MerchantCategory::MedicalServices)
        } else if s == "membership_organizations"@ {
            Some(MerchantCategory::MembershipOrganizations)
        } else if s == "mens_and_boys_clothing_and_accessories_stores"@ {
            Some(MerchantCategory::MensAndBoysClothingAndAccessoriesStores)
        } else if s == "mens_womens_clothing_stores"@ {
            Some(MerchantCategory::MensWomensClothingStores)
        } else if s == "metal_service_centers"@ {
            Some(MerchantCategory::MetalServiceCenters)
        } else if s == "miscellaneous"@ {
            Some(MerchantCategory::Miscellaneous)
        } else if s == "miscellaneous_apparel_and_accessory_shops"@ {
            Some(MerchantCategory::MiscellaneousApparelAndAccessoryShops)
        } else if s == "miscellaneous_auto_dealers"@ {
            Some(MerchantCategory::MiscellaneousAutoDealers)
        } else if s == "miscellaneous_business_services"@ {
            Some(MerchantCategory::MiscellaneousBusinessServices)
        } else if s == "miscellaneous_food_stores"@ {
            Some(MerchantCategory::MiscellaneousFoodStores)
        } else if s == "miscellaneous_general_merchandise"@ {
            Some(MerchantCategory::MiscellaneousGeneralMerchandise)
        } else if s == "miscellaneous_general_services"@ {
            Some(MerchantCategory::MiscellaneousGeneralServices)
        } else if s == "miscellaneous_home_furnishing_specialty_stores"@ {
            Some(MerchantCategory::MiscellaneousHomeFurnishingSpecialtyStores)
        } else if s == "miscellaneous_publishing_and_printing"@ {
            Some(MerchantCategory::MiscellaneousPublishingAndPrinting)
        } else if s == "miscellaneous_recreation_services"@ {
            Some(MerchantCategory::MiscellaneousRecreationServices)
        } else if s == "miscellaneous_repair_shops"@ {
            Some(MerchantCategory::MiscellaneousRepairShops)
        } else if s == "miscellaneous_specialty_retail"@ {
            Some(MerchantCategory::MiscellaneousSpecialtyRetail)
        } else if s == "mobile_home_dealers"@ {
            Some(MerchantCategory::MobileHomeDealers)
        } else if s == "motion_picture_theaters"@ {
            Some(MerchantCategory::MotionPictureTheaters)
        } else if s == "motor_freight_carriers_and_trucking"@ {
            Some(MerchantCategory::MotorFreightCarriersAndTrucking)
        } else if s == "motor_homes_dealers"@ {
            Some(MerchantCategory::MotorHomesDealers)
        } else if s == "motor_vehicle_supplies_and_new_parts"@ {
            Some(MerchantCategory::MotorVehicleSuppliesAndNewParts)
        } else if s == "motorcycle_shops_and_dealers"@ {
            Some(MerchantCategory::MotorcycleShopsAndDealers)
        } else if s == "motorcycle_shops_dealers"@ {
            Some(MerchantCategory::MotorcycleShopsDealers)
        } else if s == "music_stores_musical_instruments_pianos_and_sheet_music"@ {
            Some(MerchantCategory::MusicStoresMusicalInstrumentsPianosAndSheetMusic)
        } else if s == "news_dealers_and_newsstands"@ {
            Some(MerchantCategory::NewsDealersAndNewsstands)
        } else if s == "non_fi_money_orders"@ {
            Some(MerchantCategory::NonFiMoneyOrders)
        } else if s == "non_fi_stored_value_card_purchase_load"@ {
            Some(MerchantCategory::NonFiStoredValueCardPurchaseLoad)
        } else if s == "nondurable_goods"@ {
            Some(MerchantCategory::NondurableGoods)
        } else if s == "nurseries_lawn_and_garden_supply_stores"@ {
            Some(MerchantCategory::NurseriesLawnAndGardenSupplyStores)
        } else if s == "nursing_personal_care"@ {
            Some(MerchantCategory::NursingPersonalCare)
        } else if s == "office_and_commercial_furniture"@ {
            Some(MerchantCategory::OfficeAndCommercialFurniture)
        } else if s == "opticians_eyeglasses"@ {
            Some(MerchantCategory::OpticiansEyeglasses)
        } else if s == "optometrists_ophthalmologist"@ {
            Some(MerchantCategory::OptometristsOphthalmologist)
        } else if s == "orthopedic_goods_prosthetic_devices"@ {
            Some(MerchantCategory::OrthopedicGoodsProstheticDevices)
        } else if s == "osteopaths"@ {
            Some(MerchantCategory::Osteopaths)
        } else if s == "package_stores_beer_wine_and_liquor"@ {
            Some(MerchantCategory::PackageStoresBeerWineAndLiquor)
        } else if s == "paints_varnishes_and_supplies"@ {
            Some(MerchantCategory::PaintsVarnishesAndSupplies)
        } else if s == "parking_lots_garages"@ {
            Some(MerchantCategory::ParkingLotsGarages)
        } else if s == "passenger_railways"@ {
            Some(MerchantCategory::PassengerRailways)
        } else if s == "pawn_shops"@ {
            Some(MerchantCategory::PawnShops)
        } else if s == "pet_shops_pet_food_and_supplies"@ {
            Some(MerchantCategory::PetShopsPetFoodAndSupplies)
        } else if s == "petroleum_and_petroleum_products"@ {
            Some(MerchantCategory::PetroleumAndPetroleumProducts)
        } else if s == "photo_developing"@ {
            Some(MerchantCategory::PhotoDeveloping)
        } else if s == "photographic_photocopy_microfilm_equipment_and_supplies"@ {
            Some(MerchantCategory::PhotographicPhotocopyMicrofilmEquipmentAndSupplies)
        } else if s == "photographic_studios"@ {
            Some(MerchantCategory::PhotographicStudios)
        } else if s == "picture_video_production"@ {
            Some(MerchantCategory::PictureVideoProduction)
        } else if s == "piece_goods_notions_and_other_dry_goods"@ {
            Some(MerchantCategory::PieceGoodsNotionsAndOtherDryGoods)
        } else if s == "plumbing_heating_equipment_and_supplies"@ {
            Some(MerchantCategory::PlumbingHeatingEquipmentAndSupplies)
        } else if s == "political_organizations"@ {
            Some(MerchantCategory::PoliticalOrganizations)
        } else if s == "postal_services_government_only"@ {
            Some(MerchantCategory::PostalServicesGovernmentOnly)
        } else if s == "precious_stones_and_metals_watches_and_jewelry"@ {
            Some(MerchantCategory::PreciousStonesAndMetalsWatchesAndJewelry)
        } else if s == "professional_services"@ {
            Some(MerchantCategory::ProfessionalServices)
        } else if s == "public_warehousing_and_storage"@ {
            Some(MerchantCategory::PublicWarehousingAndStorage)
        } else if s == "quick_copy_repro_and_blueprint"@ {
            Some(MerchantCategory::QuickCopyReproAndBlueprint)
        } else if s == "railroads"@ {
            Some(MerchantCategory::Railroads)
        } else if s == "real_estate_agents_and_managers_rentals"@ {
            Some(MerchantCategory::RealEstateAgentsAndManagersRentals)
        } else if s == "record_stores"@ {
            Some(MerchantCategory::RecordStores)
        } else if s == "recreational_vehicle_rentals"@ {
            Some(MerchantCategory::RecreationalVehicleRentals)
        } else if s == "religious_goods_stores"@ {
            Some(MerchantCategory::ReligiousGoodsStores)
        } else if s == "religious_organizations"@ {
            Some(MerchantCategory::ReligiousOrganizations)
        } else if s == "roofing_siding_sheet_metal"@ {
            Some(MerchantCategory::RoofingSidingSheetMetal)
        } else if s == "secretarial_support_services"@ {
            Some(MerchantCategory::SecretarialSupportServices)
        } else if s == "security_brokers_dealers"@ {
            Some(MerchantCategory::SecurityBrokersDealers)
        } else if s == "service_stations"@ {
            Some(MerchantCategory::ServiceStations)
        } else if s == "sewing_needlework_fabric_and_piece_goods_stores"@ {
            Some(MerchantCategory::SewingNeedleworkFabricAndPieceGoodsStores)
        } else if s == "shoe_repair_hat_cleaning"@ {
            Some(MerchantCategory::ShoeRepairHatCleaning)
        } else if s == "shoe_stores"@ {
            Some(MerchantCategory::ShoeStores)
        } else if s == "small_appliance_repair"@ {
            Some(MerchantCategory::SmallApplianceRepair)
        } else if s == "snowmobile_dealers"@ {
            Some(MerchantCategory::SnowmobileDealers)
        } else if s == "special_trade_services"@ {
            Some(MerchantCategory::SpecialTradeServices)
        } else if s == "specialty_cleaning"@ {
            Some(MerchantCategory::SpecialtyCleaning)
        } else if s == "sporting_goods_stores"@ {
            Some(MerchantCategory::SportingGoodsStores)
        } else if s == "sporting_recreation_camps"@ {
            Some(MerchantCategory::SportingRecreationCamps)
        } else if s == "sports_and_riding_apparel_stores"@ {
            Some(MerchantCategory::SportsAndRidingApparelStores)
        } else if s == "sports_clubs_fields"@ {
            Some(MerchantCategory::SportsClubsFields)
        } else if s == "stamp_and_coin_stores"@ {
            Some(MerchantCategory::StampAndCoinStores)
        } else if s == "stationary_office_supplies_printing_and_writing_paper"@ {
            Some(MerchantCategory::StationaryOfficeSuppliesPrintingAndWritingPaper)
        } else if s == "stationery_stores_office_and_school_supply_stores"@ {
            Some(MerchantCategory::StationeryStoresOfficeAndSchoolSupplyStores)
        } else if s == "swimming_pools_sales"@ {
            Some(MerchantCategory::SwimmingPoolsSales)
        } else if s == "tui_travel_germany"@ {
            Some(MerchantCategory::TUiTravelGermany)
        } else if s == "tailors_alterations"@ {
            Some(MerchantCategory::TailorsAlterations)
        } else if s == "tax_payments_government_agencies"@ {
            Some(MerchantCategory::TaxPaymentsGovernmentAgencies)
        } else if s == "tax_preparation_services"@ {
            Some(MerchantCategory::TaxPreparationServices)
        } else if s == "taxicabs_limousines"@ {
            Some(MerchantCategory::TaxicabsLimousines)
        } else if s == "telecommunication_equipment_and_telephone_sales"@ {
            Some(MerchantCategory::TelecommunicationEquipmentAndTelephoneSales)
        } else if s == "telecommunication_services"@ {
            Some(MerchantCategory::TelecommunicationServices)
        } else if s == "telegraph_services"@ {
            Some(MerchantCategory::TelegraphServices)
        } else if s == "tent_and_awning_shops"@ {
            Some(MerchantCategory::TentAndAwningShops)
        } else if s == "testing_laboratories"@ {
            Some(MerchantCategory::TestingLaboratories)
        } else if s == "theatrical_ticket_agencies"@ {
            Some(MerchantCategory::TheatricalTicketAgencies)
        } else if s == "timeshares"@ {
            Some(MerchantCategory::Timeshares)
        } else if s == "tire_retreading_and_repair"@ {
            Some(MerchantCategory::TireRetreadingAndRepair)
        } else if s == "tolls_bridge_fees"@ {
            Some(MerchantCategory::TollsBridgeFees)
        } else if s == "tourist_attractions_and_exhibits"@ {
            Some(MerchantCategory::TouristAttractionsAndExhibits)
        } else if s == "towing_services"@ {
            Some(MerchantCategory::TowingServices)
        } else if s == "trailer_parks_campgrounds"@ {
            Some(MerchantCategory::TrailerParksCampgrounds)
        } else if s == "transportation_services"@ {
            Some(MerchantCategory::TransportationServices)
        } else if s == "travel_agencies_tour_operators"@ {
            Some(MerchantCategory::TravelAgenciesTourOperators)
        } else if s == "truck_stop_iteration"@ {
            Some(MerchantCategory::TruckStopIteration)
        } else if s == "truck_utility_trailer_rentals"@ {
            Some(MerchantCategory::TruckUtilityTrailerRentals)
        } else if s == "typesetting_plate_making_and_related_services"@ {
            Some(MerchantCategory::TypesettingPlateMakingAndRelatedServices)
        } else if s == "typewriter_stores"@ {
            Some(MerchantCategory::TypewriterStores)
        } else if s == "u_s_federal_government_agencies_or_departments"@ {
            Some(MerchantCategory::USFederalGovernmentAgenciesOrDepartments)
        } else if s == "uniforms_commercial_clothing"@ {
            Some(MerchantCategory::UniformsCommercialClothing)
        } else if s == "used_merchandise_and_secondhand_stores"@ {
            Some(MerchantCategory::UsedMerchandiseAndSecondhandStores)
        } else if s == "utilities"@ {
            Some(MerchantCategory::Utilities)
        } else if s == "variety_stores"@ {
            Some(MerchantCategory::VarietyStores)
        } else if s == "veterinary_services"@ {
            Some(MerchantCategory::VeterinaryServices)
        } else if s == "video_amusement_game_supplies"@ {
            Some(MerchantCategory::VideoAmusementGameSupplies)
        } else if s == "video_game_arcades"@ {
            Some(MerchantCategory::VideoGameArcades)
        } else if s == "video_tape_rental_stores"@ {
            Some(MerchantCategory::VideoTapeRentalStores)
        } else if s == "vocational_trade_schools"@ {
            Some(MerchantCategory::VocationalTradeSchools)
        } else if s == "watch_jewelry_repair"@ {
            Some(MerchantCategory::WatchJewelryRepair)
        } else if s == "welding_repair"@ {
            Some(MerchantCategory::WeldingRepair)
        } else if s == "wholesale_clubs"@ {
            Some(MerchantCategory::WholesaleClubs)
        } else if s == "wig_and_toupee_stores"@ {
            Some(MerchantCategory::WigAndToupeeStores)
        } else if s == "wires_money_orders"@ {
            Some(MerchantCategory::WiresMoneyOrders)
        } else if s == "womens_accessory_and_specialty_shops"@ {
            Some(MerchantCategory::WomensAccessoryAndSpecialtyShops)
        } else if s == "womens_ready_to_wear_stores"@ {
            Some(MerchantCategory::WomensReadyToWearStores)
        } else if s == "wrecking_and_salvage_yards"@ {
            Some(MerchantCategory::WreckingAndSalvageYards)
        } else {
            None
        }
    }
}

impl FromJson for MerchantCategory {
    open spec fn accepts(v: JsonV) -> bool {
        match v {
            JsonV::Str(s) => MerchantCategory::spec_from_str(s) is Some,
            _ => false,
        }
    }

    open spec fn decoded_from(&self, v: JsonV) -> bool {
        match v {
            JsonV::Str(s) => MerchantCategory::spec_from_str(s) == Some(*self),
            _ => false,
        }
    }

    fn from_json(v: &Json) -> (r: Result<Self, Error>) {
        let s = match v {
            Json::Str(s) => s,
            _ => {
                return Err(Error::Shape(ShapeError::WrongType(String::from_str("merchant_category"))));
            },
        };
        if text_is(s, "ac_refrigeration_repair") {
            Ok(MerchantCategory::AcRefrigerationRepair)
        } else if text_is(s, "accounting_bookkeeping_services") {
            Ok(MerchantCategory::AccountingBookkeepingServices)
        } else if text_is(s, "advertising_services") {
            Ok(MerchantCategory::AdvertisingServices)
        } else if text_is(s, "agricultural_cooperative") {
            Ok(MerchantCategory::AgriculturalCooperative)
        } else if text_is(s, "airlines_air_carriers") {
            Ok(MerchantCategory::AirlinesAirCarriers)
        } else if text_is(s, "airports_flying_fields") {
            Ok(MerchantCategory::AirportsFlyingFields)
        } else if text_is(s, "ambulance_services") {
            Ok(MerchantCategory::AmbulanceServices)
        } else if text_is(s, "amusement_parks_carnivals") {
            Ok(MerchantCategory::AmusementParksCarnivals)
        } else if text_is(s, "antique_reproductions") {
            Ok(MerchantCategory::AntiqueReproductions)
        } else if text_is(s, "antique_shops") {
            Ok(MerchantCategory::AntiqueShops)
        } else if text_is(s, "aquariums") {
            Ok(MerchantCategory::Aquariums)
        } else if text_is(s, "architectural_surveying_services") {
            Ok(MerchantCategory::ArchitecturalSurveyingServices)
        } else if text_is(s, "art_dealers_and_galleries") {
            Ok(MerchantCategory::ArtDealersAndGalleries)
        } else if text_is(s, "artists_supply_and_craft_shops") {
            Ok(MerchantCategory::ArtistsSupplyAndCraftShops)
        } else if text_is(s, "auto_and_home_supply_stores") {
            Ok(MerchantCategory::AutoAndHomeSupplyStores)
        } else if text_is(s, "auto_body_repair_shops") {
            Ok(MerchantCategory::AutoBodyRepairShops)
        } else if text_is(s, "auto_paint_shops") {
            Ok(MerchantCategory::AutoPaintShops)
        } else if text_is(s, "auto_service_shops") {
            Ok(MerchantCategory::AutoServiceShops)
        } else if text_is(s, "automated_cash_disburse") {
            Ok(MerchantCategory::AutomatedCashDisburse)
        } else if text_is(s, "automated_fuel_dispensers") {
            Ok(MerchantCategory::AutomatedFuelDispensers)
        } else if text_is(s, "automobile_associations") {
            Ok(MerchantCategory::AutomobileAssociations)
        } else if text_is(s, "automotive_parts_and_accessories_stores") {
            Ok(MerchantCategory::AutomotivePartsAndAccessoriesStores)
        } else if text_is(s, "automotive_tire_stores") {
            Ok(MerchantCategory::AutomotiveTireStores)
        } else if text_is(s, "bail_and_bond_payments") {
            Ok(MerchantCategory::BailAndBondPayments)
        } else if text_is(s, "bakeries") {
            Ok(MerchantCategory::Bakeries)
        } else if text_is(s, "bands_orchestras") {
            Ok(MerchantCategory::BandsOrchestras)
        } else if text_is(s, "barber_and_beauty_shops") {
            Ok(MerchantCategory::BarberAndBeautyShops)
        } else if text_is(s, "betting_casino_gambling") {
            Ok(MerchantCategory::BettingCasinoGambling)
        } else if text_is(s, "bicycle_shops") {
            Ok(MerchantCategory::BicycleShops)
        } else if text_is(s, "billiard_pool_establishments") {
            Ok(MerchantCategory::BilliardPoolEstablishments)
        } else if text_is(s, "boat_dealers") {
            Ok(MerchantCategory::BoatDealers)
        } else if text_is(s, "boat_rentals_and_leases") {
            Ok(MerchantCategory::BoatRentalsAndLeases)
        } else if text_is(s, "book_stores") {
            Ok(MerchantCategory::BookStores)
        } else if text_is(s, "books_periodicals_and_newspapers") {
            Ok(MerchantCategory::BooksPeriodicalsAndNewspapers)
        } else if text_is(s, "bowling_alleys") {
            Ok(MerchantCategory::BowlingAlleys)
        } else if text_is(s, "bus_lines") {
            Ok(MerchantCategory::BusLines)
        } else if text_is(s, "business_secretarial_schools") {
            Ok(MerchantCategory::BusinessSecretarialSchools)
        } else if text_is(s, "buying_shopping_services") {
            Ok(MerchantCategory::BuyingShoppingServices)
        } else if text_is(s, "cable_satellite_and_other_pay_television_and_radio") {
            Ok(MerchantCategory::CableSatelliteAndOtherPayTelevisionAndRadio)
        } else if text_is(s, "camera_and_photographic_supply_stores") {
            Ok(MerchantCategory::CameraAndPhotographicSupplyStores)
        } else if text_is(s, "candy_nut_and_confectionery_stores") {
            Ok(MerchantCategory::CandyNutAndConfectioneryStores)
        } else if text_is(s, "car_and_truck_dealers_new_used") {
            Ok(MerchantCategory::CarAndTruckDealersNewUsed)
        } else if text_is(s, "car_and_truck_dealers_used_only") {
            Ok(MerchantCategory::CarAndTruckDealersUsedOnly)
        } else if text_is(s, "car_rental_agencies") {
            Ok(MerchantCategory::CarRentalAgencies)
        } else if text_is(s, "car_washes") {
            Ok(MerchantCategory::CarWashes)
        } else if text_is(s, "carpentry_services") {
            Ok(MerchantCategory::CarpentryServices)
        } else if text_is(s, "carpet_upholstery_cleaning") {
            Ok(MerchantCategory::CarpetUpholsteryCleaning)
        } else if text_is(s, "caterers") {
            Ok(MerchantCategory::Caterers)
        } else if text_is(s, "charitable_and_social_service_organizations_fundraising") {
            Ok(MerchantCategory::CharitableAndSocialServiceOrganizationsFundraising)
        } else if text_is(s, "chemicals_and_allied_products") {
            Ok(MerchantCategory::ChemicalsAndAlliedProducts)
        } else if text_is(s, "chidrens_and_infants_wear_stores") {
            Ok(MerchantCategory::ChidrensAndInfantsWearStores)
        } else if text_is(s, "child_care_services") {
            Ok(MerchantCategory::ChildCareServices)
        } else if text_is(s, "chiropodists_podiatrists") {
            Ok(MerchantCategory::ChiropodistsPodiatrists)
        } else if text_is(s, "chiropractors") {
            Ok(MerchantCategory::Chiropractors)
        } else if text_is(s, "cigar_stores_and_stands") {
            Ok(MerchantCategory::CigarStoresAndStands)
        } else if text_is(s, "civic_social_fraternal_associations") {
            Ok(MerchantCategory::CivicSocialFraternalAssociations)
        } else if text_is(s, "cleaning_and_maintenance") {
            Ok(MerchantCategory::CleaningAndMaintenance)
        } else if text_is(s, "clothing_rental") {
            Ok(MerchantCategory::ClothingRental)
        } else if text_is(s, "colleges_universities") {
            Ok(MerchantCategory::CollegesUniversities)
        } else if text_is(s, "commercial_equipment") {
            Ok(MerchantCategory::CommercialEquipment)
        } else if text_is(s, "commercial_footwear") {
            Ok(MerchantCategory::CommercialFootwear)
        } else if text_is(s, "commercial_photography_art_and_graphics") {
            Ok(MerchantCategory::CommercialPhotographyArtAndGraphics)
        } else if text_is(s, "commuter_transport_and_ferries") {
            Ok(MerchantCategory::CommuterTransportAndFerries)
        } else if text_is(s, "computer_network_services") {
            Ok(MerchantCategory::ComputerNetworkServices)
        } else if text_is(s, "computer_programming") {
            Ok(MerchantCategory::ComputerProgramming)
        } else if text_is(s, "computer_repair") {
            Ok(MerchantCategory::ComputerRepair)
        } else if text_is(s, "computer_software_stores") {
            Ok(MerchantCategory::ComputerSoftwareStores)
        } else if text_is(s, "computers_peripherals_and_software") {
            Ok(MerchantCategory::ComputersPeripheralsAndSoftware)
        } else if text_is(s, "concrete_work_services") {
            Ok(MerchantCategory::ConcreteWorkServices)
        } else if text_is(s, "construction_materials") {
            Ok(MerchantCategory::ConstructionMaterials)
        } else if text_is(s, "consulting_public_relations") {
            Ok(MerchantCategory::ConsultingPublicRelations)
        } else if text_is(s, "correspondence_schools") {
            Ok(MerchantCategory::CorrespondenceSchools)
        } else if text_is(s, "cosmetic_stores") {
            Ok(MerchantCategory::CosmeticStores)
        } else if text_is(s, "counseling_services") {
            Ok(MerchantCategory::CounselingServices)
        } else if text_is(s, "country_clubs") {
            Ok(MerchantCategory::CountryClubs)
        } else if text_is(s, "courier_services") {
            Ok(MerchantCategory::CourierServices)
        } else if text_is(s, "court_costs") {
            Ok(MerchantCategory::CourtCosts)
        } else if text_is(s, "credit_reporting_agencies") {
            Ok(MerchantCategory::CreditReportingAgencies)
        } else if text_is(s, "cruise_lines") {
            Ok(MerchantCategory::CruiseLines)
        } else if text_is(s, "dairy_products_stores") {
            Ok(MerchantCategory::DairyProductsStores)
        } else if text_is(s, "dance_hall_studios_schools") {
            Ok(MerchantCategory::DanceHallStudiosSchools)
        } else if text_is(s, "dating_escort_services") {
            Ok(MerchantCategory::DatingEscortServices)
        } else if text_is(s, "dentists_orthodontists") {
            Ok(MerchantCategory::DentistsOrthodontists)
        } else if text_is(s, "department_stores") {
            Ok(MerchantCategory::DepartmentStores)
        } else if text_is(s, "detective_agencies") {
            Ok(MerchantCategory::DetectiveAgencies)
        } else if text_is(s, "direct_marketing_catalog_merchant") {
            Ok(MerchantCategory::DirectMarketingCatalogMerchant)
        } else if text_is(s, "direct_marketing_combination_catalog_and_retail_merchant") {
            Ok(MerchantCategory::DirectMarketingCombinationCatalogAndRetailMerchant)
        } else if text_is(s, "direct_marketing_inbound_telemarketing") {
            Ok(MerchantCategory::DirectMarketingInboundTelemarketing)
        } else if text_is(s, "direct_marketing_insurance_services") {
            Ok(MerchantCategory::DirectMarketingInsuranceServices)
        } else if text_is(s, "direct_marketing_other") {
            Ok(MerchantCategory::DirectMarketingOther)
        } else if text_is(s, "direct_marketing_outbound_telemarketing") {
            Ok(MerchantCategory::DirectMarketingOutboundTelemarketing)
        } else if text_is(s, "direct_marketing_subscription") {
            Ok(MerchantCategory::DirectMarketingSubscription)
        } else if text_is(s, "direct_marketing_travel") {
            Ok(MerchantCategory::DirectMarketingTravel)
        } else if text_is(s, "discount_stores") {
            Ok(MerchantCategory::DiscountStores)
        } else if text_is(s, "doctors") {
            Ok(MerchantCategory::Doctors)
        } else if text_is(s, "door_to_door_sales") {
            Ok(MerchantCategory::DoorToDoorSales)
        } else if text_is(s, "drapery_window_covering_and_upholstery_stores") {
            Ok(MerchantCategory::DraperyWindowCoveringAndUpholsteryStores)
        } else if text_is(s, "drinking_places") {
            Ok(MerchantCategory::DrinkingPlaces)
        } else if text_is(s, "drug_stores_and_pharmacies") {
            Ok(MerchantCategory::DrugStoresAndPharmacies)
        } else if text_is(s, "drugs_drug_proprietaries_and_druggist_sundries") {
            Ok(MerchantCategory::DrugsDrugProprietariesAndDruggistSundries)
        } else if text_is(s, "dry_cleaners") {
            Ok(MerchantCategory::DryCleaners)
        } else if text_is(s, "durable_goods") {
            Ok(MerchantCategory::DurableGoods)
        } else if text_is(s, "duty_free_stores") {
            Ok(MerchantCategory::DutyFreeStores)
        } else if text_is(s, "eating_places_restaurants") {
            Ok(MerchantCategory::EatingPlacesRestaurants)
        } else if text_is(s, "educational_services") {
            Ok(MerchantCategory::EducationalServices)
        } else if text_is(s, "electric_razor_stores") {
            Ok(MerchantCategory::ElectricRazorStores)
        } else if text_is(s, "electrical_parts_and_equipment") {
            Ok(MerchantCategory::ElectricalPartsAndEquipment)
        } else if text_is(s, "electrical_services") {
            Ok(MerchantCategory::ElectricalServices)
        } else if text_is(s, "electronics_repair_shops") {
            Ok(MerchantCategory::ElectronicsRepairShops)
        } else if text_is(s, "electronics_stores") {
            Ok(MerchantCategory::ElectronicsStores)
        } else if text_is(s, "elementary_secondary_schools") {
            Ok(MerchantCategory::ElementarySecondarySchools)
        } else if text_is(s, "employment_temp_agencies") {
            Ok(MerchantCategory::EmploymentTempAgencies)
        } else if text_is(s, "equipment_rental") {
            Ok(MerchantCategory::EquipmentRental)
        } else if text_is(s, "exterminating_services") {
            Ok(MerchantCategory::ExterminatingServices)
        } else if text_is(s, "family_clothing_stores") {
            Ok(MerchantCategory::FamilyClothingStores)
        } else if text_is(s, "fast_food_restaurants") {
            Ok(MerchantCategory::FastFoodRestaurants)
        } else if text_is(s, "financial_institutions") {
            Ok(MerchantCategory::FinancialInstitutions)
        } else if text_is(s, "fines_government_administrative_entities") {
            Ok(MerchantCategory::FinesGovernmentAdministrativeEntities)
        } else if text_is(s, "fireplace_fireplace_screens_and_accessories_stores") {
            Ok(MerchantCategory::FireplaceFireplaceScreensAndAccessoriesStores)
        } else if text_is(s, "floor_covering_stores") {
            Ok(MerchantCategory::FloorCoveringStores)
        } else if text_is(s, "florists") {
            Ok(MerchantCategory::Florists)
        } else if text_is(s, "florists_supplies_nursery_stock_and_flowers") {
            Ok(MerchantCategory::FloristsSuppliesNurseryStockAndFlowers)
        } else if text_is(s, "freezer_and_locker_meat_provisioners") {
            Ok(MerchantCategory::FreezerAndLockerMeatProvisioners)
        } else if text_is(s, "fuel_dealers_non_automotive") {
            Ok(MerchantCategory::FuelDealersNonAutomotive)
        } else if text_is(s, "funeral_services_crematories") {
            Ok(MerchantCategory::FuneralServicesCrematories)
        } else if text_is(s, "furniture_home_furnishings_and_equipment_stores_except_appliances") {
            Ok(MerchantCategory::FurnitureHomeFurnishingsAndEquipmentStoresExceptAppliances)
        } else if text_is(s, "furniture_repair_refinishing") {
            Ok(MerchantCategory::FurnitureRepairRefinishing)
        } else if text_is(s, "furriers_and_fur_shops") {
            Ok(MerchantCategory::FurriersAndFurShops)
        } else if text_is(s, "general_services") {
            Ok(MerchantCategory::GeneralServices)
        } else if text_is(s, "gift_card_novelty_and_souvenir_shops") {
            Ok(MerchantCategory::GiftCardNoveltyAndSouvenirShops)
        } else if text_is(s, "glass_paint_and_wallpaper_stores") {
            Ok(MerchantCategory::GlassPaintAndWallpaperStores)
        } else if text_is(s, "glassware_crystal_stores") {
            Ok(MerchantCategory::GlasswareCrystalStores)
        } else if text_is(s, "golf_courses_public") {
            Ok(MerchantCategory::GolfCoursesPublic)
        } else if text_is(s, "government_services") {
            Ok(MerchantCategory::GovernmentServices)
        } else if text_is(s, "grocery_stores_supermarkets") {
            Ok(MerchantCategory::GroceryStoresSupermarkets)
        } else if text_is(s, "hardware_equipment_and_supplies") {
            Ok(MerchantCategory::HardwareEquipmentAndSupplies)
        } else if text_is(s, "hardware_stores") {
            Ok(MerchantCategory::HardwareStores)
        } else if text_is(s, "health_and_beauty_spas") {
            Ok(MerchantCategory::HealthAndBeautySpas)
        } else if text_is(s, "hearing_aids_sales_and_supplies") {
            Ok(MerchantCategory::HearingAidsSalesAndSupplies)
        } else if text_is(s, "heating_plumbing_a_c") {
            Ok(MerchantCategory::HeatingPlumbingAC)
        } else if text_is(s, "hobby_toy_and_game_shops") {
            Ok(MerchantCategory::HobbyToyAndGameShops)
        } else if text_is(s, "home_supply_warehouse_stores") {
            Ok(MerchantCategory::HomeSupplyWarehouseStores)
        } else if text_is(s, "hospitals") {
            Ok(MerchantCategory::Hospitals)
        } else if text_is(s, "hotels_motels_and_resorts") {
            Ok(MerchantCategory::HotelsMotelsAndResorts)
        } else if text_is(s, "household_appliance_stores") {
            Ok(MerchantCategory::HouseholdApplianceStores)
        } else if text_is(s, "industrial_supplies") {
            Ok(MerchantCategory::IndustrialSupplies)
        } else if text_is(s, "information_retrieval_services") {
            Ok(MerchantCategory::InformationRetrievalServices)
        } else if text_is(s, "insurance_default") {
            Ok(MerchantCategory::InsuranceDefault)
        } else if text_is(s, "insurance_underwriting_premiums") {
            Ok(MerchantCategory::InsuranceUnderwritingPremiums)
        } else if text_is(s, "intra_company_purchases") {
            Ok(MerchantCategory::IntraCompanyPurchases)
        } else if text_is(s, "jewelry_stores_watches_clocks_and_silverware_stores") {
            Ok(MerchantCategory::JewelryStoresWatchesClocksAndSilverwareStores)
        } else if text_is(s, "landscaping_services") {
            Ok(MerchantCategory::LandscapingServices)
        } else if text_is(s, "laundries") {
            Ok(MerchantCategory::Laundries)
        } else if text_is(s, "laundry_cleaning_services") {
            Ok(MerchantCategory::LaundryCleaningServices)
        } else if text_is(s, "legal_services_attorneys") {
            Ok(MerchantCategory::LegalServicesAttorneys)
        } else if text_is(s, "luggage_and_leather_goods_stores") {
            Ok(MerchantCategory::LuggageAndLeatherGoodsStores)
        } else if text_is(s, "lumber_building_materials_stores") {
            Ok(MerchantCategory::LumberBuildingMaterialsStores)
        } else if text_is(s, "manual_cash_disburse") {
            Ok(MerchantCategory::ManualCashDisburse)
        } else if text_is(s, "marinas_service_and_supplies") {
            Ok(MerchantCategory::MarinasServiceAndSupplies)
        } else if text_is(s, "masonry_stonework_and_plaster") {
            Ok(MerchantCategory::MasonryStoneworkAndPlaster)
        } else if text_is(s, "massage_parlors") {
            Ok(MerchantCategory::MassageParlors)
        } else if text_is(s, "medical_and_dental_labs") {
            Ok(MerchantCategory::MedicalAndDentalLabs)
        } else if text_is(s, "medical_dental_ophthalmic_and_hospital_equipment_and_supplies") {
            Ok(MerchantCategory::MedicalDentalOphthalmicAndHospitalEquipmentAndSupplies)
        } else if text_is(s, "medical_services") {
            Ok(MerchantCategory::MedicalServices)
        } else if text_is(s, "membership_organizations") {
            Ok(MerchantCategory::MembershipOrganizations)
        } else if text_is(s, "mens_and_boys_clothing_and_accessories_stores") {
            Ok(MerchantCategory::MensAndBoysClothingAndAccessoriesStores)
        } else if text_is(s, "mens_womens_clothing_stores") {
            Ok(MerchantCategory::MensWomensClothingStores)
        } else if text_is(s, "metal_service_centers") {
            Ok(MerchantCategory::MetalServiceCenters)
        } else if text_is(s, "miscellaneous") {
            Ok(MerchantCategory::Miscellaneous)
        } else if text_is(s, "miscellaneous_apparel_and_accessory_shops") {
            Ok(MerchantCategory::MiscellaneousApparelAndAccessoryShops)
        } else if text_is(s, "miscellaneous_auto_dealers") {
            Ok(MerchantCategory::MiscellaneousAutoDealers)
        } else if text_is(s, "miscellaneous_business_services") {
            Ok(MerchantCategory::MiscellaneousBusinessServices)
        } else if text_is(s, "miscellaneous_food_stores") {
            Ok(MerchantCategory::MiscellaneousFoodStores)
        } else if text_is(s, "miscellaneous_general_merchandise") {
            Ok(MerchantCategory::MiscellaneousGeneralMerchandise)
        } else if text_is(s, "miscellaneous_general_services") {
            Ok(MerchantCategory::MiscellaneousGeneralServices)
        } else if text_is(s, "miscellaneous_home_furnishing_specialty_stores") {
            Ok(MerchantCategory::MiscellaneousHomeFurnishingSpecialtyStores)
        } else if text_is(s, "miscellaneous_publishing_and_printing") {
            Ok(MerchantCategory::MiscellaneousPublishingAndPrinting)
        } else if text_is(s, "miscellaneous_recreation_services") {
            Ok(MerchantCategory::MiscellaneousRecreationServices)
        } else if text_is(s, "miscellaneous_repair_shops") {
            Ok(MerchantCategory::MiscellaneousRepairShops)
        } else if text_is(s, "miscellaneous_specialty_retail") {
            Ok(MerchantCategory::MiscellaneousSpecialtyRetail)
        } else if text_is(s, "mobile_home_dealers") {
            Ok(MerchantCategory::MobileHomeDealers)
        } else if text_is(s, "motion_picture_theaters") {
            Ok(MerchantCategory::MotionPictureTheaters)
        } else if text_is(s, "motor_freight_carriers_and_trucking") {
            Ok(MerchantCategory::MotorFreightCarriersAndTrucking)
        } else if text_is(s, "motor_homes_dealers") {
            Ok(MerchantCategory::MotorHomesDealers)
        } else if text_is(s, "motor_vehicle_supplies_and_new_parts") {
            Ok(MerchantCategory::MotorVehicleSuppliesAndNewParts)
        } else if text_is(s, "motorcycle_shops_and_dealers") {
            Ok(MerchantCategory::MotorcycleShopsAndDealers)
        } else if text_is(s, "motorcycle_shops_dealers") {
            Ok(MerchantCategory::MotorcycleShopsDealers)
        } else if text_is(s, "music_stores_musical_instruments_pianos_and_sheet_music") {
            Ok(MerchantCategory::MusicStoresMusicalInstrumentsPianosAndSheetMusic)
        } else if text_is(s, "news_dealers_and_newsstands") {
            Ok(MerchantCategory::NewsDealersAndNewsstands)
        } else if text_is(s, "non_fi_money_orders") {
            Ok(MerchantCategory::NonFiMoneyOrders)
        } else if text_is(s, "non_fi_stored_value_card_purchase_load") {
            Ok(MerchantCategory::NonFiStoredValueCardPurchaseLoad)
        } else if text_is(s, "nondurable_goods") {
            Ok(MerchantCategory::NondurableGoods)
        } else if text_is(s, "nurseries_lawn_and_garden_supply_stores") {
            Ok(MerchantCategory::NurseriesLawnAndGardenSupplyStores)
        } else if text_is(s, "nursing_personal_care") {
            Ok(MerchantCategory::NursingPersonalCare)
        } else if text_is(s, "office_and_commercial_furniture") {
            Ok(MerchantCategory::OfficeAndCommercialFurniture)
        } else if text_is(s, "opticians_eyeglasses") {
            Ok(MerchantCategory::OpticiansEyeglasses)
        } else if text_is(s, "optometrists_ophthalmologist") {
            Ok(MerchantCategory::OptometristsOphthalmologist)
        } else if text_is(s, "orthopedic_goods_prosthetic_devices") {
            Ok(MerchantCategory::OrthopedicGoodsProstheticDevices)
        } else if text_is(s, "osteopaths") {
            Ok(MerchantCategory::Osteopaths)
        } else if text_is(s, "package_stores_beer_wine_and_liquor") {
            Ok(MerchantCategory::PackageStoresBeerWineAndLiquor)
        } else if text_is(s, "paints_varnishes_and_supplies") {
            Ok(MerchantCategory::PaintsVarnishesAndSupplies)
        } else if text_is(s, "parking_lots_garages") {
            Ok(MerchantCategory::ParkingLotsGarages)
        } else if text_is(s, "passenger_railways") {
            Ok(MerchantCategory::PassengerRailways)
        } else if text_is(s, "pawn_shops") {
            Ok(MerchantCategory::PawnShops)
        } else if text_is(s, "pet_shops_pet_food_and_supplies") {
            Ok(MerchantCategory::PetShopsPetFoodAndSupplies)
        } else if text_is(s, "petroleum_and_petroleum_products") {
            Ok(MerchantCategory::PetroleumAndPetroleumProducts)
        } else if text_is(s, "photo_developing") {
            Ok(MerchantCategory::PhotoDeveloping)
        } else if text_is(s, "photographic_photocopy_microfilm_equipment_and_supplies") {
            Ok(MerchantCategory::PhotographicPhotocopyMicrofilmEquipmentAndSupplies)
        } else if text_is(s, "photographic_studios") {
            Ok(MerchantCategory::PhotographicStudios)
        } else if text_is(s, "picture_video_production") {
            Ok(MerchantCategory::PictureVideoProduction)
        } else if text_is(s, "piece_goods_notions_and_other_dry_goods") {
            Ok(MerchantCategory::PieceGoodsNotionsAndOtherDryGoods)
        } else if text_is(s, "plumbing_heating_equipment_and_supplies") {
            Ok(MerchantCategory::PlumbingHeatingEquipmentAndSupplies)
        } else if text_is(s, "political_organizations") {
            Ok(MerchantCategory::PoliticalOrganizations)
        } else if text_is(s, "postal_services_government_only") {
            Ok(MerchantCategory::PostalServicesGovernmentOnly)
        } else if text_is(s, "precious_stones_and_metals_watches_and_jewelry") {
            Ok(MerchantCategory::PreciousStonesAndMetalsWatchesAndJewelry)
        } else if text_is(s, "professional_services") {
            Ok(MerchantCategory::ProfessionalServices)
        } else if text_is(s, "public_warehousing_and_storage") {
            Ok(MerchantCategory::PublicWarehousingAndStorage)
        } else if text_is(s, "quick_copy_repro_and_blueprint") {
            Ok(MerchantCategory::QuickCopyReproAndBlueprint)
        } else if text_is(s, "railroads") {
            Ok(MerchantCategory::Railroads)
        } else if text_is(s, "real_estate_agents_and_managers_rentals") {
            Ok(MerchantCategory::RealEstateAgentsAndManagersRentals)
        } else if text_is(s, "record_stores") {
            Ok(MerchantCategory::RecordStores)
        } else if text_is(s, "recreational_vehicle_rentals") {
            Ok(MerchantCategory::RecreationalVehicleRentals)
        } else if text_is(s, "religious_goods_stores") {
            Ok(MerchantCategory::ReligiousGoodsStores)
        } else if text_is(s, "religious_organizations") {
            Ok(MerchantCategory::ReligiousOrganizations)
        } else if text_is(s, "roofing_siding_sheet_metal") {
            Ok(MerchantCategory::RoofingSidingSheetMetal)
        } else if text_is(s, "secretarial_support_services") {
            Ok(MerchantCategory::SecretarialSupportServices)
        } else if text_is(s, "security_brokers_dealers") {
            Ok(MerchantCategory::SecurityBrokersDealers)
        } else if text_is(s, "service_stations") {
            Ok(MerchantCategory::ServiceStations)
        } else if text_is(s, "sewing_needlework_fabric_and_piece_goods_stores") {
            Ok(MerchantCategory::SewingNeedleworkFabricAndPieceGoodsStores)
        } else if text_is(s, "shoe_repair_hat_cleaning") {
            Ok(MerchantCategory::ShoeRepairHatCleaning)
        } else if text_is(s, "shoe_stores") {
            Ok(MerchantCategory::ShoeStores)
        } else if text_is(s, "small_appliance_repair") {
            Ok(MerchantCategory::SmallApplianceRepair)
        } else if text_is(s, "snowmobile_dealers") {
            Ok(MerchantCategory::SnowmobileDealers)
        } else if text_is(s, "special_trade_services") {
            Ok(MerchantCategory::SpecialTradeServices)
        } else if text_is(s, "specialty_cleaning") {
            Ok(MerchantCategory::SpecialtyCleaning)
        } else if text_is(s, "sporting_goods_stores") {
            Ok(MerchantCategory::SportingGoodsStores)
        } else if text_is(s, "sporting_recreation_camps") {
            Ok(MerchantCategory::SportingRecreationCamps)
        } else if text_is(s, "sports_and_riding_apparel_stores") {
            Ok(MerchantCategory::SportsAndRidingApparelStores)
        } else if text_is(s, "sports_clubs_fields") {
            Ok(MerchantCategory::SportsClubsFields)
        } else if text_is(s, "stamp_and_coin_stores") {
            Ok(MerchantCategory::StampAndCoinStores)
        } else if text_is(s, "stationary_office_supplies_printing_and_writing_paper") {
            Ok(MerchantCategory::StationaryOfficeSuppliesPrintingAndWritingPaper)
        } else if text_is(s, "stationery_stores_office_and_school_supply_stores") {
            Ok(MerchantCategory::StationeryStoresOfficeAndSchoolSupplyStores)
        } else if text_is(s, "swimming_pools_sales") {
            Ok(MerchantCategory::SwimmingPoolsSales)
        } else if text_is(s, "tui_travel_germany") {
            Ok(MerchantCategory::TUiTravelGermany)
        } else if text_is(s, "tailors_alterations") {
            Ok(MerchantCategory::TailorsAlterations)
        } else if text_is(s, "tax_payments_government_agencies") {
            Ok(MerchantCategory::TaxPaymentsGovernmentAgencies)
        } else if text_is(s, "tax_preparation_services") {
            Ok(MerchantCategory::TaxPreparationServices)
        } else if text_is(s, "taxicabs_limousines") {
            Ok(MerchantCategory::TaxicabsLimousines)
        } else if text_is(s, "telecommunication_equipment_and_telephone_sales") {
            Ok(MerchantCategory::TelecommunicationEquipmentAndTelephoneSales)
        } else if text_is(s, "telecommunication_services") {
            Ok(MerchantCategory::TelecommunicationServices)
        } else if text_is(s, "telegraph_services") {
            Ok(MerchantCategory::TelegraphServices)
        } else if text_is(s, "tent_and_awning_shops") {
            Ok(MerchantCategory::TentAndAwningShops)
        } else if text_is(s, "testing_laboratories") {
            Ok(MerchantCategory::TestingLaboratories)
        } else if text_is(s, "theatrical_ticket_agencies") {
            Ok(MerchantCategory::TheatricalTicketAgencies)
        } else if text_is(s, "timeshares") {
            Ok(MerchantCategory::Timeshares)
        } else if text_is(s, "tire_retreading_and_repair") {
            Ok(MerchantCategory::TireRetreadingAndRepair)
        } else if text_is(s, "tolls_bridge_fees") {
            Ok(MerchantCategory::TollsBridgeFees)
        } else if text_is(s, "tourist_attractions_and_exhibits") {
            Ok(MerchantCategory::TouristAttractionsAndExhibits)
        } else if text_is(s, "towing_services") {
            Ok(MerchantCategory::TowingServices)
        } else if text_is(s, "trailer_parks_campgrounds") {
            Ok(MerchantCategory::TrailerParksCampgrounds)
        } else if text_is(s, "transportation_services") {
            Ok(MerchantCategory::TransportationServices)
        } else if text_is(s, "travel_agencies_tour_operators") {
            Ok(MerchantCategory::TravelAgenciesTourOperators)
        } else if text_is(s, "truck_stop_iteration") {
            Ok(MerchantCategory::TruckStopIteration)
        } else if text_is(s, "truck_utility_trailer_rentals") {
            Ok(MerchantCategory::TruckUtilityTrailerRentals)
        } else if text_is(s, "typesetting_plate_making_and_related_services") {
            Ok(MerchantCategory::TypesettingPlateMakingAndRelatedServices)
        } else if text_is(s, "typewriter_stores") {
            Ok(MerchantCategory::TypewriterStores)
        } else if text_is(s, "u_s_federal_government_agencies_or_departments") {
            Ok(MerchantCategory::USFederalGovernmentAgenciesOrDepartments)
        } else if text_is(s, "uniforms_commercial_clothing") {
            Ok(MerchantCategory::UniformsCommercialClothing)
        } else if text_is(s, "used_merchandise_and_secondhand_stores") {
            Ok(MerchantCategory::UsedMerchandiseAndSecondhandStores)
        } else if text_is(s, "utilities") {
            Ok(MerchantCategory::Utilities)
        } else if text_is(s, "variety_stores") {
            Ok(MerchantCategory::VarietyStores)
        } else if text_is(s, "veterinary_services") {
            Ok(MerchantCategory::VeterinaryServices)
        } else if text_is(s, "video_amusement_game_supplies") {
            Ok(MerchantCategory::VideoAmusementGameSupplies)
        } else if text_is(s, "video_game_arcades") {
            Ok(MerchantCategory::VideoGameArcades)
        } else if text_is(s, "video_tape_rental_stores") {
            Ok(MerchantCategory::VideoTapeRentalStores)
        } else if text_is(s, "vocational_trade_schools") {
            Ok(MerchantCategory::VocationalTradeSchools)
        } else if text_is(s, "watch_jewelry_repair") {
            Ok(MerchantCategory::WatchJewelryRepair)
        } else if text_is(s, "welding_repair") {
            Ok(MerchantCategory::WeldingRepair)
        } else if text_is(s, "wholesale_clubs") {
            Ok(MerchantCategory::WholesaleClubs)
        } else if text_is(s, "wig_and_toupee_stores") {
            Ok(MerchantCategory::WigAndToupeeStores)
        } else if text_is(s, "wires_money_orders") {
            Ok(MerchantCategory::WiresMoneyOrders)
        } else if text_is(s, "womens_accessory_and_specialty_shops") {
            Ok(MerchantCategory::WomensAccessoryAndSpecialtyShops)
        } else if text_is(s, "womens_ready_to_wear_stores") {
            Ok(MerchantCategory::WomensReadyToWearStores)
        } else if text_is(s, "wrecking_and_salvage_yards") {
            Ok(MerchantCategory::WreckingAndSalvageYards)
        } else {
            Err(Error::Shape(ShapeError::WrongType(String::from_str("merchant_category"))))
        }
    }
}

impl Default for MerchantCategory {
    fn default() -> (r: Self)
        ensures
            r == MerchantCategory::Miscellaneous,
    {
        MerchantCategory::Miscellaneous
    }
}

} // verus!
