use vstd::prelude::*;

use crate::driver::stem_of;
use crate::error::Error;
use crate::text::{lower_of, lowercase};

verus! {

// ---------------------------------------------------------------------------
// The embedded table data
// ---------------------------------------------------------------------------

/// The pairs of an entry table, by their character content.
pub open spec fn entry_views(s: Seq<(&'static str, &'static str)>) -> Seq<(Seq<char>, Seq<char>)> {
    s.map_values(|p: (&'static str, &'static str)| (p.0@, p.1@))
}

/// One slice of the embedded table, at the specification level.
#[verifier::opaque]
pub closed spec fn catalog_data_a() -> Seq<(Seq<char>, Seq<char>)> {
    Seq::empty()
        .push(("accountstorecategory"@, "AccountStoreCategory.dbd"@))
        .push(("accountstoreitem"@, "AccountStoreItem.dbd"@))
        .push(("achievement"@, "Achievement.dbd"@))
        .push(("achievement_category"@, "Achievement_Category.dbd"@))
        .push(("achievement_criteria"@, "Achievement_Criteria.dbd"@))
        .push(("actionbargroup"@, "ActionBarGroup.dbd"@))
        .push(("actionbargroupentry"@, "ActionBarGroupEntry.dbd"@))
        .push(("adventurejournal"@, "AdventureJournal.dbd"@))
        .push(("adventurejournalitem"@, "AdventureJournalItem.dbd"@))
        .push(("adventuremappoi"@, "AdventureMapPOI.dbd"@))
        .push(("alliedrace"@, "AlliedRace.dbd"@))
        .push(("alliedraceracialability"@, "AlliedRaceRacialAbility.dbd"@))
        .push(("altminimap"@, "AltMinimap.dbd"@))
        .push(("altminimapfiledata"@, "AltMinimapFiledata.dbd"@))
        .push(("altminimapwmo"@, "AltMinimapWMO.dbd"@))
        .push(("animacable"@, "AnimaCable.dbd"@))
        .push(("animamaterial"@, "AnimaMaterial.dbd"@))
        .push(("animationdata"@, "AnimationData.dbd"@))
        .push(("animationnames"@, "AnimationNames.dbd"@))
        .push(("animkit"@, "AnimKit.dbd"@))
        .push(("animkitboneset"@, "AnimKitBoneSet.dbd"@))
        .push(("animkitbonesetalias"@, "AnimKitBoneSetAlias.dbd"@))
        .push(("animkitconfig"@, "AnimKitConfig.dbd"@))
        .push(("animkitconfigboneset"@, "AnimKitConfigBoneSet.dbd"@))
        .push(("animkitpriority"@, "AnimKitPriority.dbd"@))
        .push(("animkitreplacement"@, "AnimKitReplacement.dbd"@))
        .push(("animkitsegment"@, "AnimKitSegment.dbd"@))
        .push(("animreplacement"@, "AnimReplacement.dbd"@))
        .push(("animreplacementset"@, "AnimReplacementSet.dbd"@))
        .push(("aoibox"@, "AoiBox.dbd"@))
        .push(("areaassignment"@, "AreaAssignment.dbd"@))
        .push(("areaconditionaldata"@, "AreaConditionalData.dbd"@))
        .push(("areagroup"@, "AreaGroup.dbd"@))
        .push(("areagroupmember"@, "AreaGroupMember.dbd"@))
        .push(("areamidiambiences"@, "AreaMIDIAmbiences.dbd"@))
        .push(("areapoi"@, "AreaPOI.dbd"@))
        .push(("areapoisortedworldstate"@, "AreaPOISortedWorldState.dbd"@))
        .push(("areapoistate"@, "AreaPOIState.dbd"@))
        .push(("areapoiuiwidgetset"@, "AreaPOIUiWidgetSet.dbd"@))
        .push(("areatable"@, "AreaTable.dbd"@))
        .push(("areatrigger"@, "AreaTrigger.dbd"@))
        .push(("areatriggeractionset"@, "AreaTriggerActionSet.dbd"@))
        .push(("areatriggerboundedplane"@, "AreaTriggerBoundedPlane.dbd"@))
        .push(("areatriggerbox"@, "AreaTriggerBox.dbd"@))
        .push(("areatriggercreateproperties"@, "AreaTriggerCreateProperties.dbd"@))
        .push(("areatriggercylinder"@, "AreaTriggerCylinder.dbd"@))
        .push(("areatriggerdisk"@, "AreaTriggerDisk.dbd"@))
        .push(("areatriggersphere"@, "AreaTriggerSphere.dbd"@))
        .push(("arenatrackeditem"@, "ArenaTrackedItem.dbd"@))
        .push(("armorlocation"@, "ArmorLocation.dbd"@))
        .push(("artifact"@, "Artifact.dbd"@))
        .push(("artifactappearance"@, "ArtifactAppearance.dbd"@))
        .push(("artifactappearanceset"@, "ArtifactAppearanceSet.dbd"@))
        .push(("artifactcategory"@, "ArtifactCategory.dbd"@))
        .push(("artifactitemtotransmog"@, "ArtifactItemToTransmog.dbd"@))
        .push(("artifactpower"@, "ArtifactPower.dbd"@))
        .push(("artifactpowerlink"@, "ArtifactPowerLink.dbd"@))
        .push(("artifactpowerpicker"@, "ArtifactPowerPicker.dbd"@))
        .push(("artifactpowerrank"@, "ArtifactPowerRank.dbd"@))
        .push(("artifactquestxp"@, "ArtifactQuestXP.dbd"@))
        .push(("artifacttier"@, "ArtifactTier.dbd"@))
        .push(("artifactunlock"@, "ArtifactUnlock.dbd"@))
        .push(("assistedcombat"@, "AssistedCombat.dbd"@))
        .push(("animacylinder"@, "AnimaCylinder.dbd"@))
        .push(("areafarclipoverride"@, "AreaFarClipOverride.dbd"@))
        .push(("arenaccitem"@, "ArenaCcItem.dbd"@))
        .push(("assistedcombatrule"@, "AssistedCombatRule.dbd"@))
        .push(("azeritetierunlockset"@, "AzeriteTierUnlockSet.dbd"@))
        .push(("battlepetdisplayoverride"@, "BattlePetDisplayOverride.dbd"@))
        .push(("broadcasttextduration"@, "BroadcastTextDuration.dbd"@))
        .push(("cfg_realms"@, "Cfg_Realms.dbd"@))
        .push(("charcomponenttexturesections"@, "CharComponentTextureSections.dbd"@))
        .push(("chrclassracesex"@, "ChrClassRaceSex.dbd"@))
        .push(("chrcustomizationconversion"@, "ChrCustomizationConversion.dbd"@))
        .push(("chrproficiency"@, "ChrProficiency.dbd"@))
        .push(("clientsettings"@, "ClientSettings.dbd"@))
        .push(("communityicon"@, "CommunityIcon.dbd"@))
        .push(("assistedcombatstep"@, "AssistedCombatStep.dbd"@))
        .push(("attackanimkits"@, "AttackAnimKits.dbd"@))
        .push(("attackanimtypes"@, "AttackAnimTypes.dbd"@))
        .push(("auctionhouse"@, "AuctionHouse.dbd"@))
        .push(("auctionhousecategory"@, "AuctionHouseCategory.dbd"@))
        .push(("azeriteempowereditem"@, "AzeriteEmpoweredItem.dbd"@))
        .push(("azeriteessence"@, "AzeriteEssence.dbd"@))
        .push(("azeriteessencepower"@, "AzeriteEssencePower.dbd"@))
        .push(("azeriteitem"@, "AzeriteItem.dbd"@))
        .push(("azeriteitemmilestonepower"@, "AzeriteItemMilestonePower.dbd"@))
        .push(("azeriteknowledgemultiplier"@, "AzeriteKnowledgeMultiplier.dbd"@))
        .push(("azeritelevelinfo"@, "AzeriteLevelInfo.dbd"@))
        .push(("azeritepower"@, "AzeritePower.dbd"@))
        .push(("azeritepowersetmember"@, "AzeritePowerSetMember.dbd"@))
        .push(("azeritetierunlock"@, "AzeriteTierUnlock.dbd"@))
        .push(("azeriteunlockmapping"@, "AzeriteUnlockMapping.dbd"@))
        .push(("bankbagslotprices"@, "BankBagSlotPrices.dbd"@))
        .push(("banktab"@, "BankTab.dbd"@))
        .push(("bannedaddons"@, "BannedAddons.dbd"@))
        .push(("barbershopstyle"@, "BarberShopStyle.dbd"@))
        .push(("barrageeffect"@, "BarrageEffect.dbd"@))
        .push(("battlemasterlist"@, "BattlemasterList.dbd"@))
        .push(("battlemasterlistxmap"@, "BattlemasterListXMap.dbd"@))
        .push(("battlepaycurrency"@, "BattlepayCurrency.dbd"@))
        .push(("battlepetability"@, "BattlePetAbility.dbd"@))
        .push(("battlepetabilityeffect"@, "BattlePetAbilityEffect.dbd"@))
        .push(("battlepetabilitystate"@, "BattlePetAbilityState.dbd"@))
        .push(("battlepetabilityturn"@, "BattlePetAbilityTurn.dbd"@))
        .push(("battlepetbreedquality"@, "BattlePetBreedQuality.dbd"@))
        .push(("battlepetbreedstate"@, "BattlePetBreedState.dbd"@))
        .push(("battlepeteffectproperties"@, "BattlePetEffectProperties.dbd"@))
        .push(("battlepetnpcteammember"@, "BattlePetNPCTeamMember.dbd"@))
        .push(("battlepetspecies"@, "BattlePetSpecies.dbd"@))
        .push(("battlepetspeciesstate"@, "BattlePetSpeciesState.dbd"@))
        .push(("battlepetspeciesxability"@, "BattlePetSpeciesXAbility.dbd"@))
        .push(("battlepetspeciesxcovenant"@, "BattlePetSpeciesXCovenant.dbd"@))
        .push(("battlepetstate"@, "BattlePetState.dbd"@))
        .push(("battlepetvisual"@, "BattlePetVisual.dbd"@))
        .push(("beameffect"@, "BeamEffect.dbd"@))
        .push(("beckontrigger"@, "BeckonTrigger.dbd"@))
        .push(("bonewindmodifiermodel"@, "BoneWindModifierModel.dbd"@))
        .push(("bonewindmodifiers"@, "BoneWindModifiers.dbd"@))
        .push(("bonusroll"@, "BonusRoll.dbd"@))
        .push(("bounty"@, "Bounty.dbd"@))
        .push(("bountyset"@, "BountySet.dbd"@))
        .push(("broadcasttext"@, "BroadcastText.dbd"@))
        .push(("broadcasttextsoundstate"@, "BroadcastTextSoundState.dbd"@))
        .push(("broadcasttextvostate"@, "BroadcastTextVOState.dbd"@))
        .push(("cameraeffect"@, "CameraEffect.dbd"@))
        .push(("cameraeffectentry"@, "CameraEffectEntry.dbd"@))
        .push(("cameramode"@, "CameraMode.dbd"@))
        .push(("camerashakes"@, "CameraShakes.dbd"@))
        .push(("campaign"@, "Campaign.dbd"@))
        .push(("campaignxcondition"@, "CampaignXCondition.dbd"@))
        .push(("campaignxquestline"@, "CampaignXQuestLine.dbd"@))
        .push(("castableraidbuffs"@, "CastableRaidBuffs.dbd"@))
        .push(("celestialbody"@, "CelestialBody.dbd"@))
        .push(("cfg_categories"@, "Cfg_Categories.dbd"@))
        .push(("cfg_configs"@, "Cfg_Configs.dbd"@))
        .push(("cfg_gamerules"@, "Cfg_GameRules.dbd"@))
        .push(("cfg_languages"@, "Cfg_Languages.dbd"@))
        .push(("cfg_regions"@, "Cfg_Regions.dbd"@))
        .push(("cfg_timeeventregiongroup"@, "Cfg_TimeEventRegionGroup.dbd"@))
        .push(("challengemodeitembonusoverride"@, "ChallengeModeItemBonusOverride.dbd"@))
        .push(("challengemodereward"@, "ChallengeModeReward.dbd"@))
        .push(("challengemodexreward"@, "ChallengeModeXReward.dbd"@))
        .push(("charactercreatecameras"@, "CharacterCreateCameras.dbd"@))
        .push(("characterfaceboneset"@, "CharacterFaceBoneSet.dbd"@))
        .push(("characterfacialhairstyles"@, "CharacterFacialHairStyles.dbd"@))
        .push(("characterloadout"@, "CharacterLoadout.dbd"@))
        .push(("characterloadoutitem"@, "CharacterLoadoutItem.dbd"@))
        .push(("characterloadoutpet"@, "CharacterLoadoutPet.dbd"@))
        .push(("characterserviceinfo"@, "CharacterServiceInfo.dbd"@))
        .push(("charbaseinfo"@, "CharBaseInfo.dbd"@))
        .push(("charbasesection"@, "CharBaseSection.dbd"@))
        .push(("charcomponenttexturelayouts"@, "CharComponentTextureLayouts.dbd"@))
        .push(("charhairgeosets"@, "CharHairGeosets.dbd"@))
        .push(("charhairtextures"@, "CharHairTextures.dbd"@))
        .push(("charsectioncondition"@, "CharSectionCondition.dbd"@))
        .push(("charsections"@, "CharSections.dbd"@))
        .push(("charshipment"@, "CharShipment.dbd"@))
        .push(("charshipmentcontainer"@, "CharShipmentContainer.dbd"@))
        .push(("charstartkit"@, "CharStartKit.dbd"@))
        .push(("charstartoutfit"@, "CharStartOutfit.dbd"@))
        .push(("chartexturevariationsv2"@, "CharTextureVariationsV2.dbd"@))
        .push(("chartitles"@, "CharTitles.dbd"@))
        .push(("charvariations"@, "CharVariations.dbd"@))
        .push(("chatchannels"@, "ChatChannels.dbd"@))
        .push(("chatprofanity"@, "ChatProfanity.dbd"@))
        .push(("chrclasses"@, "ChrClasses.dbd"@))
        .push(("chrclassesxpowertypes"@, "ChrClassesXPowerTypes.dbd"@))
        .push(("chrclasstitle"@, "ChrClassTitle.dbd"@))
        .push(("chrclassuichrmodelinfo"@, "ChrClassUIChrModelInfo.dbd"@))
        .push(("chrclassuidisplay"@, "ChrClassUIDisplay.dbd"@))
        .push(("chrclassvillain"@, "ChrClassVillain.dbd"@))
        .push(("chrcreateclassanimtarget"@, "ChrCreateClassAnimTarget.dbd"@))
        .push(("chrcreateclassanimtargetinfo"@, "ChrCreateClassAnimTargetInfo.dbd"@))
        .push(("chrcustclientchoiceconversion"@, "ChrCustClientChoiceConversion.dbd"@))
        .push(("chrcustgeocomponentlink"@, "ChrCustGeoComponentLink.dbd"@))
        .push(("chrcustitemgeomodify"@, "ChrCustItemGeoModify.dbd"@))
        .push(("chrcustomization"@, "ChrCustomization.dbd"@))
        .push(("chrcustomizationboneset"@, "ChrCustomizationBoneSet.dbd"@))
        .push(("chrcustomizationcategory"@, "ChrCustomizationCategory.dbd"@))
        .push(("chrcustomizationchoice"@, "ChrCustomizationChoice.dbd"@))
        .push(("chrcustomizationcondmodel"@, "ChrCustomizationCondModel.dbd"@))
        .push(("chrcustomizationdisplayinfo"@, "ChrCustomizationDisplayInfo.dbd"@))
        .push(("chrcustomizationelement"@, "ChrCustomizationElement.dbd"@))
        .push(("chrcustomizationgeoset"@, "ChrCustomizationGeoset.dbd"@))
        .push(("chrcustomizationglyphpet"@, "ChrCustomizationGlyphPet.dbd"@))
        .push(("chrcustomizationmaterial"@, "ChrCustomizationMaterial.dbd"@))
        .push(("chrcustomizationoption"@, "ChrCustomizationOption.dbd"@))
        .push(("chrcustomizationreq"@, "ChrCustomizationReq.dbd"@))
        .push(("chrcustomizationreqchoice"@, "ChrCustomizationReqChoice.dbd"@))
        .push(("chrcustomizationskinnedmodel"@, "ChrCustomizationSkinnedModel.dbd"@))
        .push(("chrcustomizationvisreq"@, "ChrCustomizationVisReq.dbd"@))
        .push(("chrcustomizationvoice"@, "ChrCustomizationVoice.dbd"@))
        .push(("chrmodel"@, "ChrModel.dbd"@))
        .push(("chrmodelmaterial"@, "ChrModelMaterial.dbd"@))
        .push(("chrmodeltexturelayer"@, "ChrModelTextureLayer.dbd"@))
        .push(("chrmodeltexturetarget"@, "ChrModelTextureTarget.dbd"@))
        .push(("chrraceracialability"@, "ChrRaceRacialAbility.dbd"@))
        .push(("chrraces"@, "ChrRaces.dbd"@))
        .push(("chrracescreatescreenicon"@, "ChrRacesCreateScreenIcon.dbd"@))
        .push(("chrracesping"@, "ChrRacesPing.dbd"@))
        .push(("chrracexchrmodel"@, "ChrRaceXChrModel.dbd"@))
        .push(("chrselectbackgroundcdi"@, "ChrSelectBackgroundCDI.dbd"@))
        .push(("chrspecialization"@, "ChrSpecialization.dbd"@))
        .push(("chrupgradebucket"@, "ChrUpgradeBucket.dbd"@))
        .push(("chrupgradebucketspell"@, "ChrUpgradeBucketSpell.dbd"@))
        .push(("chrupgradetier"@, "ChrUpgradeTier.dbd"@))
        .push(("cinematic"@, "Cinematic.dbd"@))
        .push(("cinematiccamera"@, "CinematicCamera.dbd"@))
        .push(("cinematicsequences"@, "CinematicSequences.dbd"@))
}

/// One slice of the embedded table, at the specification level.
#[verifier::opaque]
pub closed spec fn catalog_data_b() -> Seq<(Seq<char>, Seq<char>)> {
    Seq::empty()
        .push(("cinematicsubtitle"@, "CinematicSubtitle.dbd"@))
        .push(("clientsceneeffect"@, "ClientSceneEffect.dbd"@))
        .push(("cloakdampening"@, "CloakDampening.dbd"@))
        .push(("cloneeffect"@, "CloneEffect.dbd"@))
        .push(("collectablesourceencounter"@, "CollectableSourceEncounter.dbd"@))
        .push(("collectablesourceencountersparse"@, "CollectableSourceEncounterSparse.dbd"@))
        .push(("collectablesourceinfo"@, "CollectableSourceInfo.dbd"@))
        .push(("collectablesourcequest"@, "CollectableSourceQuest.dbd"@))
        .push(("collectablesourcequestsparse"@, "CollectableSourceQuestSparse.dbd"@))
        .push(("collectablesourcevendor"@, "CollectableSourceVendor.dbd"@))
        .push(("collectablesourcevendorsparse"@, "CollectableSourceVendorSparse.dbd"@))
        .push(("colorbanding"@, "ColorBanding.dbd"@))
        .push(("combatcondition"@, "CombatCondition.dbd"@))
        .push(("commentatorindirectspell"@, "CommentatorIndirectSpell.dbd"@))
        .push(("commentatorstartlocation"@, "CommentatorStartLocation.dbd"@))
        .push(("commentatortrackedcooldown"@, "CommentatorTrackedCooldown.dbd"@))
        .push(("componentmodelfiledata"@, "ComponentModelFileData.dbd"@))
        .push(("componenttexturefiledata"@, "ComponentTextureFileData.dbd"@))
        .push(("conditionalchrmodel"@, "ConditionalChrModel.dbd"@))
        .push(("conditionalcontenttuning"@, "ConditionalContentTuning.dbd"@))
        .push(("conditionalcreaturemodeldata"@, "ConditionalCreatureModelData.dbd"@))
        .push(("conditionalitemappearance"@, "ConditionalItemAppearance.dbd"@))
        .push(("configurationwarning"@, "ConfigurationWarning.dbd"@))
        .push(("consolescripts"@, "ConsoleScripts.dbd"@))
        .push(("contentpush"@, "ContentPush.dbd"@))
        .push(("contentrestrictionrule"@, "ContentRestrictionRule.dbd"@))
        .push(("contentrestrictionruleset"@, "ContentRestrictionRuleSet.dbd"@))
        .push(("contenttuning"@, "ContentTuning.dbd"@))
        .push(("contenttuningdescription"@, "ContentTuningDescription.dbd"@))
        .push(("contenttuningxdifficulty"@, "ContentTuningXDifficulty.dbd"@))
        .push(("contenttuningxexpected"@, "ContentTuningXExpected.dbd"@))
        .push(("contenttuningxlabel"@, "ContentTuningXLabel.dbd"@))
        .push(("contribution"@, "Contribution.dbd"@))
        .push(("contributionstyle"@, "ContributionStyle.dbd"@))
        .push(("contributionstylecontainer"@, "ContributionStyleContainer.dbd"@))
        .push(("conversationline"@, "ConversationLine.dbd"@))
        .push(("cooldownset"@, "CooldownSet.dbd"@))
        .push(("cooldownsetlinkedspell"@, "CooldownSetLinkedSpell.dbd"@))
        .push(("cooldownsetspell"@, "CooldownSetSpell.dbd"@))
        .push(("corruptioneffects"@, "CorruptionEffects.dbd"@))
        .push(("covenant"@, "Covenant.dbd"@))
        .push(("craftingdata"@, "CraftingData.dbd"@))
        .push(("craftingdataenchantquality"@, "CraftingDataEnchantQuality.dbd"@))
        .push(("craftingdataitemquality"@, "CraftingDataItemQuality.dbd"@))
        .push(("craftingdifficulty"@, "CraftingDifficulty.dbd"@))
        .push(("craftingdifficultyquality"@, "CraftingDifficultyQuality.dbd"@))
        .push(("craftingitemquality"@, "CraftingItemQuality.dbd"@))
        .push(("craftingorder"@, "CraftingOrder.dbd"@))
        .push(("craftingorderhouse"@, "CraftingOrderHouse.dbd"@))
        .push(("craftingorderxlabel"@, "CraftingOrderXLabel.dbd"@))
        .push(("craftingquality"@, "CraftingQuality.dbd"@))
        .push(("craftingreagenteffect"@, "CraftingReagentEffect.dbd"@))
        .push(("craftingreagentquality"@, "CraftingReagentQuality.dbd"@))
        .push(("craftingreagentrequirement"@, "CraftingReagentRequirement.dbd"@))
        .push(("creature"@, "Creature.dbd"@))
        .push(("creaturedifficulty"@, "CreatureDifficulty.dbd"@))
        .push(("creaturedifficultytreasure"@, "CreatureDifficultyTreasure.dbd"@))
        .push(("creaturedisplayinfo"@, "CreatureDisplayInfo.dbd"@))
        .push(("creaturedisplayinfocond"@, "CreatureDisplayInfoCond.dbd"@))
        .push(("creaturedisplayinfocondxchoice"@, "CreatureDisplayInfoCondXChoice.dbd"@))
        .push(("creaturedisplayinfoevt"@, "CreatureDisplayInfoEvt.dbd"@))
        .push(("creaturedisplayinfogeosetdata"@, "CreatureDisplayInfoGeosetData.dbd"@))
        .push(("creaturedisplayinfooption"@, "CreatureDisplayInfoOption.dbd"@))
        .push(("creaturedisplayinfotrn"@, "CreatureDisplayInfoTrn.dbd"@))
        .push(("creaturedisplayxuimodelscene"@, "CreatureDisplayXUIModelScene.dbd"@))
        .push(("creaturedispxuicamera"@, "CreatureDispXUiCamera.dbd"@))
        .push(("creaturefamily"@, "CreatureFamily.dbd"@))
        .push(("creaturefamilyxuimodelscene"@, "CreatureFamilyXUIModelScene.dbd"@))
        .push(("creatureimmunities"@, "CreatureImmunities.dbd"@))
        .push(("creaturelabel"@, "CreatureLabel.dbd"@))
        .push(("creaturemodeldata"@, "CreatureModelData.dbd"@))
        .push(("creaturemovementinfo"@, "CreatureMovementInfo.dbd"@))
        .push(("creaturesounddata"@, "CreatureSoundData.dbd"@))
        .push(("creaturesoundfidget"@, "CreatureSoundFidget.dbd"@))
        .push(("creaturespelldata"@, "CreatureSpellData.dbd"@))
        .push(("creaturetype"@, "CreatureType.dbd"@))
        .push(("creaturexdisplayinfo"@, "CreatureXDisplayInfo.dbd"@))
        .push(("creaturexuiwidgetset"@, "CreatureXUiWidgetSet.dbd"@))
        .push(("criteria"@, "Criteria.dbd"@))
        .push(("criteriatree"@, "CriteriaTree.dbd"@))
        .push(("criteriatreexeffect"@, "CriteriaTreeXEffect.dbd"@))
        .push(("currencycategory"@, "CurrencyCategory.dbd"@))
        .push(("currencycontainer"@, "CurrencyContainer.dbd"@))
        .push(("currencysource"@, "CurrencySource.dbd"@))
        .push(("currencytypes"@, "CurrencyTypes.dbd"@))
        .push(("curve"@, "Curve.dbd"@))
        .push(("curvepoint"@, "CurvePoint.dbd"@))
        .push(("dancemoves"@, "DanceMoves.dbd"@))
        .push(("deaththudlookups"@, "DeathThudLookups.dbd"@))
        .push(("decalproperties"@, "DecalProperties.dbd"@))
        .push(("declinedword"@, "DeclinedWord.dbd"@))
        .push(("declinedwordcases"@, "DeclinedWordCases.dbd"@))
        .push(("delvesseasonxspell"@, "DelvesSeasonXSpell.dbd"@))
        .push(("destructiblemodeldata"@, "DestructibleModelData.dbd"@))
        .push(("deviceblacklist"@, "DeviceBlacklist.dbd"@))
        .push(("devicedefaultsettings"@, "DeviceDefaultSettings.dbd"@))
        .push(("difficulty"@, "Difficulty.dbd"@))
        .push(("displayseason"@, "DisplaySeason.dbd"@))
        .push(("dissolveeffect"@, "DissolveEffect.dbd"@))
        .push(("drivecapability"@, "DriveCapability.dbd"@))
        .push(("drivecapabilitytier"@, "DriveCapabilityTier.dbd"@))
        .push(("driverblacklist"@, "DriverBlacklist.dbd"@))
        .push(("dungeonencounter"@, "DungeonEncounter.dbd"@))
        .push(("dungeonmap"@, "DungeonMap.dbd"@))
        .push(("dungeonmapchunk"@, "DungeonMapChunk.dbd"@))
        .push(("durabilitycosts"@, "DurabilityCosts.dbd"@))
        .push(("durabilityquality"@, "DurabilityQuality.dbd"@))
        .push(("edgegloweffect"@, "EdgeGlowEffect.dbd"@))
        .push(("emotes"@, "Emotes.dbd"@))
        .push(("emotestext"@, "EmotesText.dbd"@))
        .push(("emotestextdata"@, "EmotesTextData.dbd"@))
        .push(("emotestextsound"@, "EmotesTextSound.dbd"@))
        .push(("enumeratedstring"@, "EnumeratedString.dbd"@))
        .push(("environmentaldamage"@, "EnvironmentalDamage.dbd"@))
        .push(("exhaustion"@, "Exhaustion.dbd"@))
        .push(("expectedstat"@, "ExpectedStat.dbd"@))
        .push(("expectedstatmod"@, "ExpectedStatMod.dbd"@))
        .push(("extraabilityinfo"@, "ExtraAbilityInfo.dbd"@))
        .push(("faction"@, "Faction.dbd"@))
        .push(("factiongroup"@, "FactionGroup.dbd"@))
        .push(("factiontemplate"@, "FactionTemplate.dbd"@))
        .push(("filedata"@, "FileData.dbd"@))
        .push(("filedatacomplete"@, "FileDataComplete.dbd"@))
        .push(("filepaths"@, "FilePaths.dbd"@))
        .push(("flightcapabilityxglideevent"@, "FlightCapabilityXGlideEvent.dbd"@))
        .push(("footprinttextures"@, "FootprintTextures.dbd"@))
        .push(("footstepterrainlookup"@, "FootstepTerrainLookup.dbd"@))
        .push(("friendshiprepreaction"@, "FriendshipRepReaction.dbd"@))
        .push(("friendshipreputation"@, "FriendshipReputation.dbd"@))
        .push(("fullscreeneffect"@, "FullScreenEffect.dbd"@))
        .push(("gameclockdebug"@, "GameClockDebug.dbd"@))
        .push(("gamemode"@, "GameMode.dbd"@))
        .push(("gameobjectanimgroupmember"@, "GameObjectAnimGroupMember.dbd"@))
        .push(("gameobjectartkit"@, "GameObjectArtKit.dbd"@))
        .push(("gameobjectdiffanimmap"@, "GameObjectDiffAnimMap.dbd"@))
        .push(("gameobjectdisplaycondition"@, "GameObjectDisplayCondition.dbd"@))
        .push(("gameobjectdisplayinfo"@, "GameObjectDisplayInfo.dbd"@))
        .push(("gameobjectdisplayinfoxsoundkit"@, "GameObjectDisplayInfoXSoundKit.dbd"@))
        .push(("gameobjectlabel"@, "GameObjectLabel.dbd"@))
        .push(("gameobjectsclient"@, "GameObjectsClient.dbd"@))
        .push(("gameparameter"@, "GameParameter.dbd"@))
        .push(("gametables"@, "GameTables.dbd"@))
        .push(("gametips"@, "GameTips.dbd"@))
        .push(("garrability"@, "GarrAbility.dbd"@))
        .push(("garrabilitycategory"@, "GarrAbilityCategory.dbd"@))
        .push(("garrabilityeffect"@, "GarrAbilityEffect.dbd"@))
        .push(("garrautocombatant"@, "GarrAutoCombatant.dbd"@))
        .push(("garrautospell"@, "GarrAutoSpell.dbd"@))
        .push(("garrautospelleffect"@, "GarrAutoSpellEffect.dbd"@))
        .push(("garrbuilding"@, "GarrBuilding.dbd"@))
        .push(("garrbuildingdoodadset"@, "GarrBuildingDoodadSet.dbd"@))
        .push(("garrbuildingplotinst"@, "GarrBuildingPlotInst.dbd"@))
        .push(("garrclassspec"@, "GarrClassSpec.dbd"@))
        .push(("garrclassspecplayercond"@, "GarrClassSpecPlayerCond.dbd"@))
        .push(("garrencountersetxencounter"@, "GarrEncounterSetXEncounter.dbd"@))
        .push(("garrencounterxmechanic"@, "GarrEncounterXMechanic.dbd"@))
        .push(("garrfamilyname"@, "GarrFamilyName.dbd"@))
        .push(("garrfollitemset"@, "GarrFollItemSet.dbd"@))
        .push(("garrfollitemsetmember"@, "GarrFollItemSetMember.dbd"@))
        .push(("garrfollower"@, "GarrFollower.dbd"@))
        .push(("garrfollowerlevelxp"@, "GarrFollowerLevelXP.dbd"@))
        .push(("garrfollowerquality"@, "GarrFollowerQuality.dbd"@))
        .push(("garrfollowersetxfollower"@, "GarrFollowerSetXFollower.dbd"@))
        .push(("garrfollowertype"@, "GarrFollowerType.dbd"@))
        .push(("garrfolloweruicreature"@, "GarrFollowerUICreature.dbd"@))
        .push(("garrfollowerxability"@, "GarrFollowerXAbility.dbd"@))
        .push(("garrfollsupportspell"@, "GarrFollSupportSpell.dbd"@))
        .push(("garrgivenname"@, "GarrGivenName.dbd"@))
        .push(("garritemlevelupgradedata"@, "GarrItemLevelUpgradeData.dbd"@))
        .push(("garrmechanicsetxmechanic"@, "GarrMechanicSetXMechanic.dbd"@))
        .push(("garrmechanictype"@, "GarrMechanicType.dbd"@))
        .push(("garrmission"@, "GarrMission.dbd"@))
        .push(("garrmissionreward"@, "GarrMissionReward.dbd"@))
        .push(("garrmissionset"@, "GarrMissionSet.dbd"@))
        .push(("garrmissiontexture"@, "GarrMissionTexture.dbd"@))
        .push(("garrmissiontype"@, "GarrMissionType.dbd"@))
        .push(("garrmissionxencounter"@, "GarrMissionXEncounter.dbd"@))
        .push(("garrmissionxfollower"@, "GarrMissionXFollower.dbd"@))
        .push(("garrmssnbonusability"@, "GarrMssnBonusAbility.dbd"@))
        .push(("garrplot"@, "GarrPlot.dbd"@))
        .push(("garrplotbuilding"@, "GarrPlotBuilding.dbd"@))
        .push(("garrplotinstance"@, "GarrPlotInstance.dbd"@))
        .push(("garrplotuicategory"@, "GarrPlotUICategory.dbd"@))
        .push(("garrsitelevel"@, "GarrSiteLevel.dbd"@))
        .push(("garrspecialization"@, "GarrSpecialization.dbd"@))
        .push(("garrstring"@, "GarrString.dbd"@))
        .push(("garrtalent"@, "GarrTalent.dbd"@))
        .push(("garrtalentcost"@, "GarrTalentCost.dbd"@))
        .push(("garrtalentmappoi"@, "GarrTalentMapPOI.dbd"@))
        .push(("garrtalentrank"@, "GarrTalentRank.dbd"@))
        .push(("garrtalentrankgroupentry"@, "GarrTalentRankGroupEntry.dbd"@))
        .push(("garrtalentrankgroupresearchmod"@, "GarrTalentRankGroupResearchMod.dbd"@))
        .push(("garrtalentresearch"@, "GarrTalentResearch.dbd"@))
        .push(("garrtalentsocketproperties"@, "GarrTalentSocketProperties.dbd"@))
        .push(("garrtalenttree"@, "GarrTalentTree.dbd"@))
        .push(("garrtaltreexgarrtalresearch"@, "GarrTalTreeXGarrTalResearch.dbd"@))
        .push(("garrtype"@, "GarrType.dbd"@))
        .push(("garruianimclassinfo"@, "GarrUiAnimClassInfo.dbd"@))
        .push(("garruianimraceinfo"@, "GarrUiAnimRaceInfo.dbd"@))
        .push(("glideevent"@, "GlideEvent.dbd"@))
        .push(("glideeventblendtimes"@, "GlideEventBlendTimes.dbd"@))
        .push(("globalcolor"@, "GlobalColor.dbd"@))
        .push(("globalcurve"@, "GlobalCurve.dbd"@))
        .push(("globalgamecontenttuning"@, "GlobalGameContentTuning.dbd"@))
        .push(("globalplayercondition"@, "GlobalPlayerCondition.dbd"@))
        .push(("globalplayerconditionset"@, "GlobalPlayerConditionSet.dbd"@))
        .push(("globalstrings"@, "GlobalStrings.dbd"@))
        .push(("globaltable_playercondition"@, "GlobalTable_PlayerCondition.dbd"@))
        .push(("gluescreenemote"@, "GlueScreenEmote.dbd"@))
        .push(("glyphbindablespell"@, "GlyphBindableSpell.dbd"@))
}

/// One slice of the embedded table, at the specification level.
#[verifier::opaque]
pub closed spec fn catalog_data_c() -> Seq<(Seq<char>, Seq<char>)> {
    Seq::empty()
        .push(("glyphexclusivecategory"@, "GlyphExclusiveCategory.dbd"@))
        .push(("glyphproperties"@, "GlyphProperties.dbd"@))
        .push(("glyphrequiredspec"@, "GlyphRequiredSpec.dbd"@))
        .push(("glyphslot"@, "GlyphSlot.dbd"@))
        .push(("gmsurveycurrentsurvey"@, "GMSurveyCurrentSurvey.dbd"@))
        .push(("gmsurveyquestions"@, "GMSurveyQuestions.dbd"@))
        .push(("gmsurveysurveys"@, "GMSurveySurveys.dbd"@))
        .push(("gmticketcategory"@, "GMTicketCategory.dbd"@))
        .push(("gossipnpcoption"@, "GossipNPCOption.dbd"@))
        .push(("gossipnpcoptiondisplayinfo"@, "GossipNPCOptionDisplayInfo.dbd"@))
        .push(("gossipoptionxuiwidgetset"@, "GossipOptionXUIWidgetSet.dbd"@))
        .push(("gossipuidisplayinfocondition"@, "GossipUIDisplayInfoCondition.dbd"@))
        .push(("gossipxgarrtalenttrees"@, "GossipXGarrTalentTrees.dbd"@))
        .push(("gossipxuidisplayinfo"@, "GossipXUIDisplayInfo.dbd"@))
        .push(("gradienteffect"@, "GradientEffect.dbd"@))
        .push(("groundeffectdoodad"@, "GroundEffectDoodad.dbd"@))
        .push(("groundeffecttexture"@, "GroundEffectTexture.dbd"@))
        .push(("groupfinderactivity"@, "GroupFinderActivity.dbd"@))
        .push(("groupfinderactivitygrp"@, "GroupFinderActivityGrp.dbd"@))
        .push(("groupfindercategory"@, "GroupFinderCategory.dbd"@))
        .push(("gtarmormitigationbylvl"@, "gtArmorMitigationByLvl.dbd"@))
        .push(("gtbarbershopcostbase"@, "gtBarberShopCostBase.dbd"@))
        .push(("gtbattlepettypedamagemod"@, "gtBattlePetTypeDamageMod.dbd"@))
        .push(("gtbattlepetxp"@, "gtBattlePetXP.dbd"@))
        .push(("gtchancetomeleecrit"@, "gtChanceToMeleeCrit.dbd"@))
        .push(("gtchancetomeleecritbase"@, "gtChanceToMeleeCritBase.dbd"@))
        .push(("gtchancetospellcrit"@, "gtChanceToSpellCrit.dbd"@))
        .push(("gtchancetospellcritbase"@, "gtChanceToSpellCritBase.dbd"@))
        .push(("gtcombatratings"@, "gtCombatRatings.dbd"@))
        .push(("gtitemsocketcostperlevel"@, "gtItemSocketCostPerLevel.dbd"@))
        .push(("gtmasterymultipliers"@, "gtMasteryMultipliers.dbd"@))
        .push(("gtnpcmanacostscaler"@, "gtNPCManaCostScaler.dbd"@))
        .push(("gtoctbasehpbyclass"@, "gtOCTBaseHPByClass.dbd"@))
        .push(("gtoctbasempbyclass"@, "gtOCTBaseMPByClass.dbd"@))
        .push(("gtoctclasscombatratingscalar"@, "gtOCTClassCombatRatingScalar.dbd"@))
        .push(("gtocthpperstamina"@, "gtOCTHpPerStamina.dbd"@))
        .push(("gtoctlevelexperience"@, "gtOCTLevelExperience.dbd"@))
        .push(("gtoctregenhp"@, "gtOCTRegenHP.dbd"@))
        .push(("gtoctregenmp"@, "gtOCTRegenMP.dbd"@))
        .push(("gtregenhpperspt"@, "gtRegenHPPerSpt.dbd"@))
        .push(("gtregenmpperspt"@, "gtRegenMPPerSpt.dbd"@))
        .push(("gtresiliencedr"@, "gtResilienceDR.dbd"@))
        .push(("gtspellscaling"@, "gtSpellScaling.dbd"@))
        .push(("holidaynames"@, "HolidayNames.dbd"@))
        .push(("holidays"@, "Holidays.dbd"@))
        .push(("holidayxtimeevent"@, "HolidayXTimeEvent.dbd"@))
        .push(("hotfix"@, "Hotfix.dbd"@))
        .push(("hotfixes"@, "Hotfixes.dbd"@))
        .push(("housedecor"@, "HouseDecor.dbd"@))
        .push(("importpricearmor"@, "ImportPriceArmor.dbd"@))
        .push(("importpricequality"@, "ImportPriceQuality.dbd"@))
        .push(("importpriceshield"@, "ImportPriceShield.dbd"@))
        .push(("importpriceweapon"@, "ImportPriceWeapon.dbd"@))
        .push(("invasionclientdata"@, "InvasionClientData.dbd"@))
        .push(("item-sparse"@, "Item-sparse.dbd"@))
        .push(("item"@, "Item.dbd"@))
        .push(("itemappearance"@, "ItemAppearance.dbd"@))
        .push(("itemappearancexuicamera"@, "ItemAppearanceXUiCamera.dbd"@))
        .push(("itemarmorquality"@, "ItemArmorQuality.dbd"@))
        .push(("itemarmortotal"@, "ItemArmorTotal.dbd"@))
        .push(("itembagfamily"@, "ItemBagFamily.dbd"@))
        .push(("itembonus"@, "ItemBonus.dbd"@))
        .push(("itembonuslist"@, "ItemBonusList.dbd"@))
        .push(("itembonuslistgroup"@, "ItemBonusListGroup.dbd"@))
        .push(("itembonuslistgroupentry"@, "ItemBonusListGroupEntry.dbd"@))
        .push(("itembonuslistleveldelta"@, "ItemBonusListLevelDelta.dbd"@))
        .push(("itembonuslistwarforgeleveldelta"@, "ItemBonusListWarforgeLevelDelta.dbd"@))
        .push(("itembonusseason"@, "ItemBonusSeason.dbd"@))
        .push(("itembonusseasonbonuslistgroup"@, "ItemBonusSeasonBonusListGroup.dbd"@))
        .push(("itembonusseasonupgradecost"@, "ItemBonusSeasonUpgradeCost.dbd"@))
        .push(("itembonussequencespell"@, "ItemBonusSequenceSpell.dbd"@))
        .push(("itembonustree"@, "ItemBonusTree.dbd"@))
        .push(("itembonustreegroupentry"@, "ItemBonusTreeGroupEntry.dbd"@))
        .push(("itembonustreenode"@, "ItemBonusTreeNode.dbd"@))
        .push(("craftingitem"@, "CraftingItem.dbd"@))
        .push(("creaturedisplayinfoextra"@, "CreatureDisplayInfoExtra.dbd"@))
        .push(("creaturexcontribution"@, "CreatureXContribution.dbd"@))
        .push(("delvesseason"@, "DelvesSeason.dbd"@))
        .push(("emoteanims"@, "EmoteAnims.dbd"@))
        .push(("flightcapability"@, "FlightCapability.dbd"@))
        .push(("gameobjects"@, "GameObjects.dbd"@))
        .push(("garrencounter"@, "GarrEncounter.dbd"@))
        .push(("garrmechanic"@, "GarrMechanic.dbd"@))
        .push(("garrsitelevelplotinst"@, "GarrSiteLevelPlotInst.dbd"@))
        .push(("gemproperties"@, "GemProperties.dbd"@))
        .push(("gmsurveyanswers"@, "GMSurveyAnswers.dbd"@))
        .push(("groupfinderactivityxpvpbracket"@, "GroupFinderActivityXPvpBracket.dbd"@))
        .push(("guildcolorbackground"@, "GuildColorBackground.dbd"@))
        .push(("holidaydescriptions"@, "HolidayDescriptions.dbd"@))
        .push(("itemclass"@, "ItemClass.dbd"@))
        .push(("itemcondextcosts"@, "ItemCondExtCosts.dbd"@))
        .push(("itemcondition"@, "ItemCondition.dbd"@))
        .push(("itemcontextpickerentry"@, "ItemContextPickerEntry.dbd"@))
        .push(("itemconversion"@, "ItemConversion.dbd"@))
        .push(("itemconversionentry"@, "ItemConversionEntry.dbd"@))
        .push(("itemcreationcontext"@, "ItemCreationContext.dbd"@))
        .push(("itemcreationcontextgroup"@, "ItemCreationContextGroup.dbd"@))
        .push(("itemcurrencycost"@, "ItemCurrencyCost.dbd"@))
        .push(("itemcurrencyvalue"@, "ItemCurrencyValue.dbd"@))
        .push(("itemdamageammo"@, "ItemDamageAmmo.dbd"@))
        .push(("itemdamageonehand"@, "ItemDamageOneHand.dbd"@))
        .push(("itemdamageonehandcaster"@, "ItemDamageOneHandCaster.dbd"@))
        .push(("itemdamageranged"@, "ItemDamageRanged.dbd"@))
        .push(("itemdamagethrown"@, "ItemDamageThrown.dbd"@))
        .push(("itemdamagetwohandcaster"@, "ItemDamageTwoHandCaster.dbd"@))
        .push(("itemdamagewand"@, "ItemDamageWand.dbd"@))
        .push(("itemdisenchantloot"@, "ItemDisenchantLoot.dbd"@))
        .push(("itemdisplayinfo"@, "ItemDisplayInfo.dbd"@))
        .push(("itemdisplayinfomaterialres"@, "ItemDisplayInfoMaterialRes.dbd"@))
        .push(("itemdisplayinfomodelmatres"@, "ItemDisplayInfoModelMatRes.dbd"@))
        .push(("itemdisplayxuicamera"@, "ItemDisplayXUiCamera.dbd"@))
        .push(("itemeffect"@, "ItemEffect.dbd"@))
        .push(("itemextendedcost"@, "ItemExtendedCost.dbd"@))
        .push(("itemfallbackvisual"@, "ItemFallbackVisual.dbd"@))
        .push(("itemfixup"@, "ItemFixup.dbd"@))
        .push(("itemfixupaction"@, "ItemFixupAction.dbd"@))
        .push(("itemgroupilvlscalingentry"@, "ItemGroupIlvlScalingEntry.dbd"@))
        .push(("itemgroupsounds"@, "ItemGroupSounds.dbd"@))
        .push(("itemlevelselector"@, "ItemLevelSelector.dbd"@))
        .push(("itemlevelselectorqualityset"@, "ItemLevelSelectorQualitySet.dbd"@))
        .push(("itemlevelwatermark"@, "ItemLevelWatermark.dbd"@))
        .push(("itemlimitcategory"@, "ItemLimitCategory.dbd"@))
        .push(("itemlimitcategorycondition"@, "ItemLimitCategoryCondition.dbd"@))
        .push(("itemlogicalcost"@, "ItemLogicalCost.dbd"@))
        .push(("itemlogicalcostgroup"@, "ItemLogicalCostGroup.dbd"@))
        .push(("itemmodifiedappearance"@, "ItemModifiedAppearance.dbd"@))
        .push(("itemmodifiedappearanceextra"@, "ItemModifiedAppearanceExtra.dbd"@))
        .push(("itemnamedescription"@, "ItemNameDescription.dbd"@))
        .push(("itemnameslotoverride"@, "ItemNameSlotOverride.dbd"@))
        .push(("itemoffsetcurve"@, "ItemOffsetCurve.dbd"@))
        .push(("itempetfood"@, "ItemPetFood.dbd"@))
        .push(("itempricebase"@, "ItemPriceBase.dbd"@))
        .push(("itempurchasegroup"@, "ItemPurchaseGroup.dbd"@))
        .push(("itemrandomproperties"@, "ItemRandomProperties.dbd"@))
        .push(("itemrandomsuffix"@, "ItemRandomSuffix.dbd"@))
        .push(("itemrecraft"@, "ItemRecraft.dbd"@))
        .push(("itemreforge"@, "ItemReforge.dbd"@))
        .push(("itemsalvage"@, "ItemSalvage.dbd"@))
        .push(("itemsalvageloot"@, "ItemSalvageLoot.dbd"@))
        .push(("itemscalingconfig"@, "ItemScalingConfig.dbd"@))
        .push(("itemsearchname"@, "ItemSearchName.dbd"@))
        .push(("itemset"@, "ItemSet.dbd"@))
        .push(("itemsetspell"@, "ItemSetSpell.dbd"@))
        .push(("itemsparse"@, "ItemSparse.dbd"@))
        .push(("itemspec"@, "ItemSpec.dbd"@))
        .push(("itemspecoverride"@, "ItemSpecOverride.dbd"@))
        .push(("itemsquishera"@, "ItemSquishEra.dbd"@))
        .push(("itemsubclass"@, "ItemSubClass.dbd"@))
        .push(("itemsubclassmask"@, "ItemSubClassMask.dbd"@))
        .push(("itemtobattlepet"@, "ItemToBattlePet.dbd"@))
        .push(("itemtomountspell"@, "ItemToMountSpell.dbd"@))
        .push(("itemupgradepath"@, "ItemUpgradePath.dbd"@))
        .push(("itemvisualeffects"@, "ItemVisualEffects.dbd"@))
        .push(("itemvisuals"@, "ItemVisuals.dbd"@))
        .push(("itemvisualsxeffect"@, "ItemVisualsXEffect.dbd"@))
        .push(("itemxbonustree"@, "ItemXBonusTree.dbd"@))
        .push(("itemxitemeffect"@, "ItemXItemEffect.dbd"@))
        .push(("itemxtraitsystem"@, "ItemXTraitSystem.dbd"@))
        .push(("journalencounter"@, "JournalEncounter.dbd"@))
        .push(("journalencountercreature"@, "JournalEncounterCreature.dbd"@))
        .push(("journalencounteritem"@, "JournalEncounterItem.dbd"@))
        .push(("journalencountersection"@, "JournalEncounterSection.dbd"@))
        .push(("journalencounterxdifficulty"@, "JournalEncounterXDifficulty.dbd"@))
        .push(("journalencounterxmaploc"@, "JournalEncounterXMapLoc.dbd"@))
        .push(("journalinstance"@, "JournalInstance.dbd"@))
        .push(("journalinstanceentrance"@, "JournalInstanceEntrance.dbd"@))
        .push(("journalitemxdifficulty"@, "JournalItemXDifficulty.dbd"@))
        .push(("journalsectionxdifficulty"@, "JournalSectionXDifficulty.dbd"@))
        .push(("journaltier"@, "JournalTier.dbd"@))
        .push(("journaltierxinstance"@, "JournalTierXInstance.dbd"@))
        .push(("keychain"@, "Keychain.dbd"@))
        .push(("keystoneaffix"@, "KeystoneAffix.dbd"@))
        .push(("labelxcontentrestrictruleset"@, "LabelXContentRestrictRuleSet.dbd"@))
        .push(("languages"@, "Languages.dbd"@))
        .push(("languagewords"@, "LanguageWords.dbd"@))
        .push(("lfgdungeonexpansion"@, "LFGDungeonExpansion.dbd"@))
        .push(("lfgdungeongroup"@, "LFGDungeonGroup.dbd"@))
        .push(("lfgdungeons"@, "LFGDungeons.dbd"@))
        .push(("lfgdungeonsgroupingmap"@, "LfgDungeonsGroupingMap.dbd"@))
        .push(("lfgrolerequirement"@, "LFGRoleRequirement.dbd"@))
        .push(("light"@, "Light.dbd"@))
        .push(("lightdata"@, "LightData.dbd"@))
        .push(("lightintband"@, "LightIntBand.dbd"@))
        .push(("lightning"@, "Lightning.dbd"@))
        .push(("lightparams"@, "LightParams.dbd"@))
        .push(("lightparamslightshaft"@, "LightParamsLightShaft.dbd"@))
        .push(("lightshaft"@, "LightShaft.dbd"@))
        .push(("lightskybox"@, "LightSkybox.dbd"@))
        .push(("lightworldshadow"@, "LightWorldShadow.dbd"@))
        .push(("liquidmaterial"@, "LiquidMaterial.dbd"@))
        .push(("liquidobject"@, "LiquidObject.dbd"@))
        .push(("liquidtype"@, "LiquidType.dbd"@))
        .push(("liquidtypextexture"@, "LiquidTypeXTexture.dbd"@))
        .push(("livingworldobjecttemplate"@, "LivingWorldObjectTemplate.dbd"@))
        .push(("livingworldobjecttemplatemodel"@, "LivingWorldObjectTemplateModel.dbd"@))
        .push(("loadingscreens"@, "LoadingScreens.dbd"@))
        .push(("loadingscreenskin"@, "LoadingScreenSkin.dbd"@))
        .push(("loadingscreentaxisplines"@, "LoadingScreenTaxiSplines.dbd"@))
        .push(("location"@, "Location.dbd"@))
        .push(("lock"@, "Lock.dbd"@))
        .push(("locktype"@, "LockType.dbd"@))
        .push(("lookatcontroller"@, "LookAtController.dbd"@))
        .push(("loretext"@, "LoreText.dbd"@))
        .push(("loretextpublic"@, "LoreTextPublic.dbd"@))
        .push(("mailtemplate"@, "MailTemplate.dbd"@))
        .push(("managedworldstate"@, "ManagedWorldState.dbd"@))
        .push(("managedworldstatebuff"@, "ManagedWorldStateBuff.dbd"@))
        .push(("managedworldstateinput"@, "ManagedWorldStateInput.dbd"@))
        .push(("manifestinterfaceactionicon"@, "ManifestInterfaceActionIcon.dbd"@))
        .push(("manifestinterfacedata"@, "ManifestInterfaceData.dbd"@))
}

/// One slice of the embedded table, at the specification level.
#[verifier::opaque]
pub closed spec fn catalog_data_d() -> Seq<(Seq<char>, Seq<char>)> {
    Seq::empty()
        .push(("manifestinterfaceitemicon"@, "ManifestInterfaceItemIcon.dbd"@))
        .push(("manifestinterfacetocdata"@, "ManifestInterfaceTOCData.dbd"@))
        .push(("manifestmp3"@, "ManifestMP3.dbd"@))
        .push(("map"@, "Map.dbd"@))
        .push(("mapchallengemode"@, "MapChallengeMode.dbd"@))
        .push(("mapchallengemodeaffixcriteria"@, "MapChallengeModeAffixCriteria.dbd"@))
        .push(("mapdifficulty"@, "MapDifficulty.dbd"@))
        .push(("mapdifficultyredirect"@, "MapDifficultyRedirect.dbd"@))
        .push(("mapdifficultyxcondition"@, "MapDifficultyXCondition.dbd"@))
        .push(("maploadingscreen"@, "MapLoadingScreen.dbd"@))
        .push(("maprenderscale"@, "MapRenderScale.dbd"@))
        .push(("marketingpromotionsxlocale"@, "MarketingPromotionsXLocale.dbd"@))
        .push(("material"@, "Material.dbd"@))
        .push(("mawpower"@, "MawPower.dbd"@))
        .push(("mawpowerrarity"@, "MawPowerRarity.dbd"@))
        .push(("mcrslotxmcrcategory"@, "MCRSlotXMCRCategory.dbd"@))
        .push(("minortalent"@, "MinorTalent.dbd"@))
        .push(("missiletargeting"@, "MissileTargeting.dbd"@))
        .push(("mobilestrings"@, "MobileStrings.dbd"@))
        .push(("modelfiledata"@, "ModelFileData.dbd"@))
        .push(("modelmanifest"@, "ModelManifest.dbd"@))
        .push(("modelnametomanifest"@, "ModelNameToManifest.dbd"@))
        .push(("modelribbonquality"@, "ModelRibbonQuality.dbd"@))
        .push(("modelsound"@, "ModelSound.dbd"@))
        .push(("modelsoundanimentry"@, "ModelSoundAnimEntry.dbd"@))
        .push(("modelsoundentry"@, "ModelSoundEntry.dbd"@))
        .push(("modelsoundoverride"@, "ModelSoundOverride.dbd"@))
        .push(("modelsoundoverridename"@, "ModelSoundOverrideName.dbd"@))
        .push(("modelsoundsettings"@, "ModelSoundSettings.dbd"@))
        .push(("modelsoundtagentry"@, "ModelSoundTagEntry.dbd"@))
        .push(("modifiedcraftingcategory"@, "ModifiedCraftingCategory.dbd"@))
        .push(("modifiedcraftingitem"@, "ModifiedCraftingItem.dbd"@))
        .push(("modifiedcraftingreagentitem"@, "ModifiedCraftingReagentItem.dbd"@))
        .push(("modifiedcraftingreagentslot"@, "ModifiedCraftingReagentSlot.dbd"@))
        .push(("modifiedreagentitem"@, "ModifiedReagentItem.dbd"@))
        .push(("modifiertree"@, "ModifierTree.dbd"@))
        .push(("mount"@, "Mount.dbd"@))
        .push(("mountcapability"@, "MountCapability.dbd"@))
        .push(("mountequipment"@, "MountEquipment.dbd"@))
        .push(("mounttype"@, "MountType.dbd"@))
        .push(("mounttypexcapability"@, "MountTypeXCapability.dbd"@))
        .push(("mountxdisplay"@, "MountXDisplay.dbd"@))
        .push(("mountxspellvisualkitpicker"@, "MountXSpellVisualKitPicker.dbd"@))
        .push(("movie"@, "Movie.dbd"@))
        .push(("moviefiledata"@, "MovieFileData.dbd"@))
        .push(("movieoverlays"@, "MovieOverlays.dbd"@))
        .push(("movievariation"@, "MovieVariation.dbd"@))
        .push(("multistateproperties"@, "MultiStateProperties.dbd"@))
        .push(("multitransitionproperties"@, "MultiTransitionProperties.dbd"@))
        .push(("mythicplusseason"@, "MythicPlusSeason.dbd"@))
        .push(("mythicplusseasonkeyfloor"@, "MythicPlusSeasonKeyFloor.dbd"@))
        .push(("mythicplusseasonrewardlevels"@, "MythicPlusSeasonRewardLevels.dbd"@))
        .push(("mythicplusseasontrackedaffix"@, "MythicPlusSeasonTrackedAffix.dbd"@))
        .push(("mythicplusseasontrackedmap"@, "MythicPlusSeasonTrackedMap.dbd"@))
        .push(("namegen"@, "NameGen.dbd"@))
        .push(("namesprofanity"@, "NamesProfanity.dbd"@))
        .push(("namesreserved"@, "NamesReserved.dbd"@))
        .push(("namesreservedlocale"@, "NamesReservedLocale.dbd"@))
        .push(("npccraftingordercustomer"@, "NPCCraftingOrderCustomer.dbd"@))
        .push(("npccraftingordercustomerxlabel"@, "NPCCraftingOrderCustomerXLabel.dbd"@))
        .push(("npccraftingorderset"@, "NPCCraftingOrderSet.dbd"@))
        .push(("npccraftingordersetxcraftorder"@, "NPCCraftingOrderSetXCraftOrder.dbd"@))
        .push(("npccraftingordersetxcustomer"@, "NPCCraftingOrderSetXCustomer.dbd"@))
        .push(("npccraftingordersetxtreasure"@, "NPCCraftingOrderSetXTreasure.dbd"@))
        .push(("npcsounds"@, "NPCSounds.dbd"@))
        .push(("numtalentsatlevel"@, "NumTalentsAtLevel.dbd"@))
        .push(("objecteffect"@, "ObjectEffect.dbd"@))
        .push(("objecteffectgroup"@, "ObjectEffectGroup.dbd"@))
        .push(("objecteffectmodifier"@, "ObjectEffectModifier.dbd"@))
        .push(("objecteffectpackage"@, "ObjectEffectPackage.dbd"@))
        .push(("objecteffectpackageelem"@, "ObjectEffectPackageElem.dbd"@))
        .push(("objecteffectstatename"@, "ObjectEffectStateName.dbd"@))
        .push(("occluder"@, "Occluder.dbd"@))
        .push(("occludercurtain"@, "OccluderCurtain.dbd"@))
        .push(("occluderlocation"@, "OccluderLocation.dbd"@))
        .push(("occludernode"@, "OccluderNode.dbd"@))
        .push(("outlineeffect"@, "OutlineEffect.dbd"@))
        .push(("overridespelldata"@, "OverrideSpellData.dbd"@))
        .push(("package"@, "Package.dbd"@))
        .push(("pagetextmaterial"@, "PageTextMaterial.dbd"@))
        .push(("paragonreputation"@, "ParagonReputation.dbd"@))
        .push(("particlecolor"@, "ParticleColor.dbd"@))
        .push(("particulate"@, "Particulate.dbd"@))
        .push(("particulatesound"@, "ParticulateSound.dbd"@))
        .push(("path"@, "Path.dbd"@))
        .push(("pathedge"@, "PathEdge.dbd"@))
        .push(("pathnode"@, "PathNode.dbd"@))
        .push(("pathnodeproperty"@, "PathNodeProperty.dbd"@))
        .push(("pathproperty"@, "PathProperty.dbd"@))
        .push(("perksactivity"@, "PerksActivity.dbd"@))
        .push(("perksactivitycondition"@, "PerksActivityCondition.dbd"@))
        .push(("perksactivitytag"@, "PerksActivityTag.dbd"@))
        .push(("perksactivitythreshold"@, "PerksActivityThreshold.dbd"@))
        .push(("perksactivitythresholdgroup"@, "PerksActivityThresholdGroup.dbd"@))
        .push(("perksactivityxholidays"@, "PerksActivityXHolidays.dbd"@))
        .push(("perksactivityxinterval"@, "PerksActivityXInterval.dbd"@))
        .push(("perksuitheme"@, "PerksUITheme.dbd"@))
        .push(("perksvendorcategory"@, "PerksVendorCategory.dbd"@))
        .push(("perksvendoritem"@, "PerksVendorItem.dbd"@))
        .push(("perksvendoritemuigroup"@, "PerksVendorItemUIGroup.dbd"@))
        .push(("perksvendoritemuiinfo"@, "PerksVendorItemUIInfo.dbd"@))
        .push(("perksvendoritemxinterval"@, "PerksVendorItemXInterval.dbd"@))
        .push(("petitiontype"@, "PetitionType.dbd"@))
        .push(("petloyalty"@, "PetLoyalty.dbd"@))
        .push(("petpersonality"@, "PetPersonality.dbd"@))
        .push(("phase"@, "Phase.dbd"@))
        .push(("phaseshiftzonesounds"@, "PhaseShiftZoneSounds.dbd"@))
        .push(("phasexphasegroup"@, "PhaseXPhaseGroup.dbd"@))
        .push(("pingtype"@, "PingType.dbd"@))
        .push(("playercompanioninfo"@, "PlayerCompanionInfo.dbd"@))
        .push(("playercondition"@, "PlayerCondition.dbd"@))
        .push(("itemchildequipment"@, "ItemChildEquipment.dbd"@))
        .push(("itemdamagetwohand"@, "ItemDamageTwoHand.dbd"@))
        .push(("itemlevelselectorquality"@, "ItemLevelSelectorQuality.dbd"@))
        .push(("itemrangeddisplayinfo"@, "ItemRangedDisplayInfo.dbd"@))
        .push(("itemupgrade"@, "ItemUpgrade.dbd"@))
        .push(("journalinstancequeueloc"@, "JournalInstanceQueueLoc.dbd"@))
        .push(("lightfloatband"@, "LightFloatBand.dbd"@))
        .push(("locale"@, "Locale.dbd"@))
        .push(("mapcelestialbody"@, "MapCelestialBody.dbd"@))
        .push(("modelanimcloakdampening"@, "ModelAnimCloakDampening.dbd"@))
        .push(("modifiedcraftingspellslot"@, "ModifiedCraftingSpellSlot.dbd"@))
        .push(("musicoverride"@, "MusicOverride.dbd"@))
        .push(("npcmodelitemslotdisplayinfo"@, "NPCModelItemSlotDisplayInfo.dbd"@))
        .push(("paperdollitemframe"@, "PaperDollItemFrame.dbd"@))
        .push(("playerdataelementcharacter"@, "PlayerDataElementCharacter.dbd"@))
        .push(("playerdataflagaccount"@, "PlayerDataFlagAccount.dbd"@))
        .push(("playerdataflagcharacter"@, "PlayerDataFlagCharacter.dbd"@))
        .push(("playerinteractioninfo"@, "PlayerInteractionInfo.dbd"@))
        .push(("pointlightconditionmap"@, "PointLightConditionMap.dbd"@))
        .push(("positioner"@, "Positioner.dbd"@))
        .push(("positionerstate"@, "PositionerState.dbd"@))
        .push(("positionerstateentry"@, "PositionerStateEntry.dbd"@))
        .push(("powerdisplay"@, "PowerDisplay.dbd"@))
        .push(("powertype"@, "PowerType.dbd"@))
        .push(("prestigelevelinfo"@, "PrestigeLevelInfo.dbd"@))
        .push(("profession"@, "Profession.dbd"@))
        .push(("professioneffect"@, "ProfessionEffect.dbd"@))
        .push(("professioneffecttype"@, "ProfessionEffectType.dbd"@))
        .push(("professionexpansion"@, "ProfessionExpansion.dbd"@))
        .push(("professionrating"@, "ProfessionRating.dbd"@))
        .push(("professiontrait"@, "ProfessionTrait.dbd"@))
        .push(("professiontraitxeffect"@, "ProfessionTraitXEffect.dbd"@))
        .push(("professiontraitxlabel"@, "ProfessionTraitXLabel.dbd"@))
        .push(("professionxrating"@, "ProfessionXRating.dbd"@))
        .push(("proftraitpathnode"@, "ProfTraitPathNode.dbd"@))
        .push(("proftraitperknode"@, "ProfTraitPerkNode.dbd"@))
        .push(("proftraittree"@, "ProfTraitTree.dbd"@))
        .push(("proftraittreehighlight"@, "ProfTraitTreeHighlight.dbd"@))
        .push(("pvpbrackettypes"@, "PVPBracketTypes.dbd"@))
        .push(("pvpbrawl"@, "PvpBrawl.dbd"@))
        .push(("pvpdifficulty"@, "PVPDifficulty.dbd"@))
        .push(("pvpitem"@, "PVPItem.dbd"@))
        .push(("pvprating"@, "PvpRating.dbd"@))
        .push(("pvpreward"@, "PvpReward.dbd"@))
        .push(("pvpscalingeffect"@, "PvpScalingEffect.dbd"@))
        .push(("pvpscoreboardcellinfo"@, "PVPScoreboardCellInfo.dbd"@))
        .push(("pvpscoreboardcolumnheader"@, "PVPScoreboardColumnHeader.dbd"@))
        .push(("pvpscoreboardlayout"@, "PVPScoreboardLayout.dbd"@))
        .push(("pvpseason"@, "PvpSeason.dbd"@))
        .push(("pvpseasonrewardlevels"@, "PvpSeasonRewardLevels.dbd"@))
        .push(("pvpstat"@, "PVPStat.dbd"@))
        .push(("pvptalent"@, "PvpTalent.dbd"@))
        .push(("pvptalentcategory"@, "PvpTalentCategory.dbd"@))
        .push(("pvptalentslotunlock"@, "PvpTalentSlotUnlock.dbd"@))
        .push(("pvptalentunlock"@, "PvpTalentUnlock.dbd"@))
        .push(("pvptier"@, "PvpTier.dbd"@))
        .push(("questdrivenscenario"@, "QuestDrivenScenario.dbd"@))
        .push(("questfactionreward"@, "QuestFactionReward.dbd"@))
        .push(("questfeedbackeffect"@, "QuestFeedbackEffect.dbd"@))
        .push(("questhub"@, "QuestHub.dbd"@))
        .push(("questinfo"@, "QuestInfo.dbd"@))
        .push(("questline"@, "QuestLine.dbd"@))
        .push(("questlinexquest"@, "QuestLineXQuest.dbd"@))
        .push(("questmoneyreward"@, "QuestMoneyReward.dbd"@))
        .push(("questobjective"@, "QuestObjective.dbd"@))
        .push(("questpackageitem"@, "QuestPackageItem.dbd"@))
        .push(("questpoiblob"@, "QuestPOIBlob.dbd"@))
        .push(("questpoipoint"@, "QuestPOIPoint.dbd"@))
        .push(("questsort"@, "QuestSort.dbd"@))
        .push(("questv2"@, "QuestV2.dbd"@))
        .push(("questv2clitask"@, "QuestV2CliTask.dbd"@))
        .push(("questxgroupactivity"@, "QuestXGroupActivity.dbd"@))
        .push(("questxp"@, "QuestXP.dbd"@))
        .push(("questxuiquestdetailstheme"@, "QuestXUIQuestDetailsTheme.dbd"@))
        .push(("questxuiwidgetset"@, "QuestXUiWidgetSet.dbd"@))
        .push(("racialmounts"@, "RacialMounts.dbd"@))
        .push(("rafactivity"@, "RafActivity.dbd"@))
        .push(("recipeprogressiongroupentry"@, "RecipeProgressionGroupEntry.dbd"@))
        .push(("relicslottierrequirement"@, "RelicSlotTierRequirement.dbd"@))
        .push(("relictalent"@, "RelicTalent.dbd"@))
        .push(("renownrewards"@, "RenownRewards.dbd"@))
        .push(("renownrewardsplunderstorm"@, "RenownRewardsPlunderstorm.dbd"@))
        .push(("researchbranch"@, "ResearchBranch.dbd"@))
        .push(("researchfield"@, "ResearchField.dbd"@))
        .push(("researchproject"@, "ResearchProject.dbd"@))
        .push(("researchsite"@, "ResearchSite.dbd"@))
        .push(("resistances"@, "Resistances.dbd"@))
        .push(("rewardpack"@, "RewardPack.dbd"@))
        .push(("rewardpackxcurrencytype"@, "RewardPackXCurrencyType.dbd"@))
        .push(("rewardpackxitem"@, "RewardPackXItem.dbd"@))
        .push(("ribbonquality"@, "RibbonQuality.dbd"@))
        .push(("rolodextype"@, "RolodexType.dbd"@))
        .push(("ropeeffect"@, "RopeEffect.dbd"@))
        .push(("rtpcdata"@, "RTPCData.dbd"@))
        .push(("rulesetitemupgrade"@, "RulesetItemUpgrade.dbd"@))
        .push(("rulesetraidlootupgrade"@, "RulesetRaidLootUpgrade.dbd"@))
        .push(("rulesetraidoverride"@, "RulesetRaidOverride.dbd"@))
        .push(("runeforgelegendaryability"@, "RuneforgeLegendaryAbility.dbd"@))
        .push(("sandboxscaling"@, "SandboxScaling.dbd"@))
}

/// One slice of the embedded table, at the specification level.
#[verifier::opaque]
pub closed spec fn catalog_data_e() -> Seq<(Seq<char>, Seq<char>)> {
    Seq::empty()
        .push(("scalingstatdistribution"@, "ScalingStatDistribution.dbd"@))
        .push(("scalingstatvalues"@, "ScalingStatValues.dbd"@))
        .push(("scenario"@, "Scenario.dbd"@))
        .push(("scenarioevententry"@, "ScenarioEventEntry.dbd"@))
        .push(("scenariostep"@, "ScenarioStep.dbd"@))
        .push(("scenescript"@, "SceneScript.dbd"@))
        .push(("scenescriptglobaltext"@, "SceneScriptGlobalText.dbd"@))
        .push(("scenescriptpackage"@, "SceneScriptPackage.dbd"@))
        .push(("scenescriptpackagemember"@, "SceneScriptPackageMember.dbd"@))
        .push(("scheduledinterval"@, "ScheduledInterval.dbd"@))
        .push(("scheduledworldstate"@, "ScheduledWorldState.dbd"@))
        .push(("scheduledworldstategroup"@, "ScheduledWorldStateGroup.dbd"@))
        .push(("scheduledworldstatexuniqcat"@, "ScheduledWorldStateXUniqCat.dbd"@))
        .push(("screeneffect"@, "ScreenEffect.dbd"@))
        .push(("screeneffecttype"@, "ScreenEffectType.dbd"@))
        .push(("screenlocation"@, "ScreenLocation.dbd"@))
        .push(("sdreplacementmodel"@, "SDReplacementModel.dbd"@))
        .push(("seamlesssite"@, "SeamlessSite.dbd"@))
        .push(("servermessages"@, "ServerMessages.dbd"@))
        .push(("shadowyeffect"@, "ShadowyEffect.dbd"@))
        .push(("sharedstring"@, "SharedString.dbd"@))
        .push(("sheathesoundlookups"@, "SheatheSoundLookups.dbd"@))
        .push(("siegeableproperties"@, "SiegeableProperties.dbd"@))
        .push(("skillcostsdata"@, "SkillCostsData.dbd"@))
        .push(("skilllineability"@, "SkillLineAbility.dbd"@))
        .push(("skilllineabilitysortedspell"@, "SkillLineAbilitySortedSpell.dbd"@))
        .push(("skilllinecategory"@, "SkillLineCategory.dbd"@))
        .push(("skilllinextraittree"@, "SkillLineXTraitTree.dbd"@))
        .push(("skillraceclassinfo"@, "SkillRaceClassInfo.dbd"@))
        .push(("skilltiers"@, "SkillTiers.dbd"@))
        .push(("skyscenexplayercondition"@, "SkySceneXPlayerCondition.dbd"@))
        .push(("soulbind"@, "Soulbind.dbd"@))
        .push(("soulbindconduit"@, "SoulbindConduit.dbd"@))
        .push(("soulbindconduitenhancedsocket"@, "SoulbindConduitEnhancedSocket.dbd"@))
        .push(("soulbindconduititem"@, "SoulbindConduitItem.dbd"@))
        .push(("soulbindconduitrank"@, "SoulbindConduitRank.dbd"@))
        .push(("soulbindconduitrankproperties"@, "SoulbindConduitRankProperties.dbd"@))
        .push(("soulbinduidisplayinfo"@, "SoulbindUIDisplayInfo.dbd"@))
        .push(("soundambience"@, "SoundAmbience.dbd"@))
        .push(("soundbus"@, "SoundBus.dbd"@))
        .push(("soundbusname"@, "SoundBusName.dbd"@))
        .push(("soundbusoverride"@, "SoundBusOverride.dbd"@))
        .push(("soundcharactermacrolines"@, "SoundCharacterMacroLines.dbd"@))
        .push(("soundemitterpillpoints"@, "SoundEmitterPillPoints.dbd"@))
        .push(("soundemitters"@, "SoundEmitters.dbd"@))
        .push(("soundentries"@, "SoundEntries.dbd"@))
        .push(("soundentriesadvanced"@, "SoundEntriesAdvanced.dbd"@))
        .push(("soundentriesfallbacks"@, "SoundEntriesFallbacks.dbd"@))
        .push(("soundenvelope"@, "SoundEnvelope.dbd"@))
        .push(("soundfilter"@, "SoundFilter.dbd"@))
        .push(("soundfilterelem"@, "SoundFilterElem.dbd"@))
        .push(("soundkit"@, "SoundKit.dbd"@))
        .push(("soundkitadvanced"@, "SoundKitAdvanced.dbd"@))
        .push(("soundkitchild"@, "SoundKitChild.dbd"@))
        .push(("soundkitentry"@, "SoundKitEntry.dbd"@))
        .push(("soundkitname"@, "SoundKitName.dbd"@))
        .push(("soundmixgroup"@, "SoundMixGroup.dbd"@))
        .push(("soundoverride"@, "SoundOverride.dbd"@))
        .push(("soundparameter"@, "SoundParameter.dbd"@))
        .push(("soundproviderpreferences"@, "SoundProviderPreferences.dbd"@))
        .push(("soundsamplepreferences"@, "SoundSamplePreferences.dbd"@))
        .push(("soundwaterfallemitter"@, "SoundWaterfallEmitter.dbd"@))
        .push(("soundwatertype"@, "SoundWaterType.dbd"@))
        .push(("sourceinfo"@, "SourceInfo.dbd"@))
        .push(("spammessages"@, "SpamMessages.dbd"@))
        .push(("specializationspells"@, "SpecializationSpells.dbd"@))
        .push(("specializationspellsdisplay"@, "SpecializationSpellsDisplay.dbd"@))
        .push(("specsetmember"@, "SpecSetMember.dbd"@))
        .push(("spell"@, "Spell.dbd"@))
        .push(("spellactionbarpref"@, "SpellActionBarPref.dbd"@))
        .push(("spellauranames"@, "SpellAuraNames.dbd"@))
        .push(("spellauraoptions"@, "SpellAuraOptions.dbd"@))
        .push(("spellaurarestrictions"@, "SpellAuraRestrictions.dbd"@))
        .push(("spellaurarestrictionsdifficulty"@, "SpellAuraRestrictionsDifficulty.dbd"@))
        .push(("spellauravisibility"@, "SpellAuraVisibility.dbd"@))
        .push(("spellauravisxchrspec"@, "SpellAuraVisXChrSpec.dbd"@))
        .push(("spellauravisxtalenttab"@, "SpellAuraVisXTalentTab.dbd"@))
        .push(("spellcastingrequirements"@, "SpellCastingRequirements.dbd"@))
        .push(("spellcasttimes"@, "SpellCastTimes.dbd"@))
        .push(("spellcategories"@, "SpellCategories.dbd"@))
        .push(("spellcategory"@, "SpellCategory.dbd"@))
        .push(("spellchaineffects"@, "SpellChainEffects.dbd"@))
        .push(("spellclassoptions"@, "SpellClassOptions.dbd"@))
        .push(("spellclutterareaeffectcounts"@, "SpellClutterAreaEffectCounts.dbd"@))
        .push(("spellclutterframerates"@, "SpellClutterFrameRates.dbd"@))
        .push(("spellclutterkitdistances"@, "SpellClutterKitDistances.dbd"@))
        .push(("spellcluttermissiledist"@, "SpellClutterMissileDist.dbd"@))
        .push(("spellclutterweapontraildist"@, "SpellClutterWeaponTrailDist.dbd"@))
        .push(("spellcooldowns"@, "SpellCooldowns.dbd"@))
        .push(("spellcraftui"@, "SpellCraftUI.dbd"@))
        .push(("spelldescriptionvariables"@, "SpellDescriptionVariables.dbd"@))
        .push(("spelldifficulty"@, "SpellDifficulty.dbd"@))
        .push(("spelldispeltype"@, "SpellDispelType.dbd"@))
        .push(("spellduration"@, "SpellDuration.dbd"@))
        .push(("spelleffect"@, "SpellEffect.dbd"@))
        .push(("spelleffectautodescription"@, "SpellEffectAutoDescription.dbd"@))
        .push(("spelleffectcamerashakes"@, "SpellEffectCameraShakes.dbd"@))
        .push(("spelleffectemission"@, "SpellEffectEmission.dbd"@))
        .push(("spelleffectgroupsize"@, "SpellEffectGroupSize.dbd"@))
        .push(("spelleffectnames"@, "SpellEffectNames.dbd"@))
        .push(("spellempower"@, "SpellEmpower.dbd"@))
        .push(("spellempowerstage"@, "SpellEmpowerStage.dbd"@))
        .push(("spellequippeditems"@, "SpellEquippedItems.dbd"@))
        .push(("spellflyout"@, "SpellFlyout.dbd"@))
        .push(("spellflyoutitem"@, "SpellFlyoutItem.dbd"@))
        .push(("spellfocusobject"@, "SpellFocusObject.dbd"@))
        .push(("spellicon"@, "SpellIcon.dbd"@))
        .push(("spellinterrupts"@, "SpellInterrupts.dbd"@))
        .push(("spellitemenchantment"@, "SpellItemEnchantment.dbd"@))
        .push(("spellitemenchantmentcondition"@, "SpellItemEnchantmentCondition.dbd"@))
        .push(("spellkeyboundoverride"@, "SpellKeyboundOverride.dbd"@))
        .push(("spelllabel"@, "SpellLabel.dbd"@))
        .push(("spelllearnspell"@, "SpellLearnSpell.dbd"@))
        .push(("spelllevels"@, "SpellLevels.dbd"@))
        .push(("spellmastery"@, "SpellMastery.dbd"@))
        .push(("spellmechanic"@, "SpellMechanic.dbd"@))
        .push(("spellmisc"@, "SpellMisc.dbd"@))
        .push(("spellmiscdifficulty"@, "SpellMiscDifficulty.dbd"@))
        .push(("spellmissile"@, "SpellMissile.dbd"@))
        .push(("spellmissilemotion"@, "SpellMissileMotion.dbd"@))
        .push(("spellname"@, "SpellName.dbd"@))
        .push(("spelloverridename"@, "SpellOverrideName.dbd"@))
        .push(("spellpower"@, "SpellPower.dbd"@))
        .push(("spellpowerdifficulty"@, "SpellPowerDifficulty.dbd"@))
        .push(("spellproceduraleffect"@, "SpellProceduralEffect.dbd"@))
        .push(("spellprocsperminute"@, "SpellProcsPerMinute.dbd"@))
        .push(("spellprocsperminutemod"@, "SpellProcsPerMinuteMod.dbd"@))
        .push(("spellradius"@, "SpellRadius.dbd"@))
        .push(("spellrange"@, "SpellRange.dbd"@))
        .push(("spellreagents"@, "SpellReagents.dbd"@))
        .push(("spellreagentscurrency"@, "SpellReagentsCurrency.dbd"@))
        .push(("spellreplacement"@, "SpellReplacement.dbd"@))
        .push(("spellscaling"@, "SpellScaling.dbd"@))
        .push(("spellscript"@, "SpellScript.dbd"@))
        .push(("spellscripttext"@, "SpellScriptText.dbd"@))
        .push(("spellshapeshift"@, "SpellShapeshift.dbd"@))
        .push(("spellshapeshiftform"@, "SpellShapeshiftForm.dbd"@))
        .push(("spellspecialuniteffect"@, "SpellSpecialUnitEffect.dbd"@))
        .push(("spelltargetrestrictions"@, "SpellTargetRestrictions.dbd"@))
        .push(("spelltooltip"@, "SpellTooltip.dbd"@))
        .push(("spelltotems"@, "SpellTotems.dbd"@))
        .push(("spellvisual"@, "SpellVisual.dbd"@))
        .push(("spellvisualanim"@, "SpellVisualAnim.dbd"@))
        .push(("spellvisualanimname"@, "SpellVisualAnimName.dbd"@))
        .push(("spellvisualcoloreffect"@, "SpellVisualColorEffect.dbd"@))
        .push(("spellvisualeffectname"@, "SpellVisualEffectName.dbd"@))
        .push(("spellvisualevent"@, "SpellVisualEvent.dbd"@))
        .push(("playerdataelementaccount"@, "PlayerDataElementAccount.dbd"@))
        .push(("professionproppoints"@, "ProfessionPropPoints.dbd"@))
        .push(("pvpscalingeffecttype"@, "PvpScalingEffectType.dbd"@))
        .push(("questlabel"@, "QuestLabel.dbd"@))
        .push(("randproppoints"@, "RandPropPoints.dbd"@))
        .push(("rtpc"@, "RTPC.dbd"@))
        .push(("scenescripttext"@, "SceneScriptText.dbd"@))
        .push(("skillline"@, "SkillLine.dbd"@))
        .push(("soundambienceflavor"@, "SoundAmbienceFlavor.dbd"@))
        .push(("soundkitfallback"@, "SoundKitFallback.dbd"@))
        .push(("spellactivationoverlay"@, "SpellActivationOverlay.dbd"@))
        .push(("spellclutterimpactmodelcounts"@, "SpellClutterImpactModelCounts.dbd"@))
        .push(("spelleffectscaling"@, "SpellEffectScaling.dbd"@))
        .push(("spellmemorizecost"@, "SpellMemorizeCost.dbd"@))
        .push(("spellrunecost"@, "SpellRuneCost.dbd"@))
        .push(("spellvisualkit"@, "SpellVisualKit.dbd"@))
        .push(("stationery"@, "Stationery.dbd"@))
        .push(("terraintypesounds"@, "TerrainTypeSounds.dbd"@))
        .push(("traitedge"@, "TraitEdge.dbd"@))
        .push(("traittreeloadoutentry"@, "TraitTreeLoadoutEntry.dbd"@))
        .push(("trophytype"@, "TrophyType.dbd"@))
        .push(("uieventtoast"@, "UIEventToast.dbd"@))
        .push(("uimappoi"@, "UiMapPOI.dbd"@))
        .push(("uitextureatlasmember"@, "UiTextureAtlasMember.dbd"@))
        .push(("unittestsparse"@, "UnitTestSparse.dbd"@))
        .push(("warbandscene"@, "WarbandScene.dbd"@))
        .push(("wbpermissions"@, "WbPermissions.dbd"@))
        .push(("worldlayermapset"@, "WorldLayerMapSet.dbd"@))
        .push(("contenttuningxexpectedstatmod"@, "ContentTuningXExpectedStatMod.dbd"@))
        .push(("itemarmorshield"@, "ItemArmorShield.dbd"@))
        .push(("perksactivityxtag"@, "PerksActivityXTag.dbd"@))
        .push(("spellvisualkitareamodel"@, "SpellVisualKitAreaModel.dbd"@))
        .push(("spellvisualkiteffect"@, "SpellVisualKitEffect.dbd"@))
        .push(("spellvisualkitmodelattach"@, "SpellVisualKitModelAttach.dbd"@))
        .push(("spellvisualkitpicker"@, "SpellVisualKitPicker.dbd"@))
        .push(("spellvisualkitpickerentry"@, "SpellVisualKitPickerEntry.dbd"@))
        .push(("spellvisualmissile"@, "SpellVisualMissile.dbd"@))
        .push(("spellvisualprecasttransitions"@, "SpellVisualPrecastTransitions.dbd"@))
        .push(("spellvisualscreeneffect"@, "SpellVisualScreenEffect.dbd"@))
        .push(("spellxdescriptionvariables"@, "SpellXDescriptionVariables.dbd"@))
        .push(("spellxspellvisual"@, "SpellXSpellVisual.dbd"@))
        .push(("spotlightconditionmap"@, "SpotLightConditionMap.dbd"@))
        .push(("ssaosettings"@, "SSAOSettings.dbd"@))
        .push(("stableslotprices"@, "StableSlotPrices.dbd"@))
        .push(("startupfiles"@, "StartupFiles.dbd"@))
        .push(("startup_strings"@, "Startup_Strings.dbd"@))
        .push(("stringlookups"@, "StringLookups.dbd"@))
        .push(("summonproperties"@, "SummonProperties.dbd"@))
        .push(("tabardbackgroundtextures"@, "TabardBackgroundTextures.dbd"@))
        .push(("tabardemblemtextures"@, "TabardEmblemTextures.dbd"@))
        .push(("tactkey"@, "TactKey.dbd"@))
        .push(("tactkeylookup"@, "TactKeyLookup.dbd"@))
        .push(("talent"@, "Talent.dbd"@))
        .push(("talenttab"@, "TalentTab.dbd"@))
        .push(("talenttreeprimaryspells"@, "TalentTreePrimarySpells.dbd"@))
        .push(("taxinodes"@, "TaxiNodes.dbd"@))
        .push(("taxipath"@, "TaxiPath.dbd"@))
        .push(("taxipathnode"@, "TaxiPathNode.dbd"@))
        .push(("teamcontributionpoints"@, "TeamContributionPoints.dbd"@))
        .push(("terraincolorgradingramp"@, "TerrainColorGradingRamp.dbd"@))
        .push(("terrainmaterial"@, "TerrainMaterial.dbd"@))
        .push(("terraintype"@, "TerrainType.dbd"@))
        .push(("textureblendset"@, "TextureBlendSet.dbd"@))
}

/// One slice of the embedded table, at the specification level.
#[verifier::opaque]
pub closed spec fn catalog_data_f() -> Seq<(Seq<char>, Seq<char>)> {
    Seq::empty()
        .push(("texturefiledata"@, "TextureFileData.dbd"@))
        .push(("tiertransition"@, "TierTransition.dbd"@))
        .push(("timeeventdata"@, "TimeEventData.dbd"@))
        .push(("totemcategory"@, "TotemCategory.dbd"@))
        .push(("toy"@, "Toy.dbd"@))
        .push(("tradeskillcategory"@, "TradeSkillCategory.dbd"@))
        .push(("tradeskillitem"@, "TradeSkillItem.dbd"@))
        .push(("traitcond"@, "TraitCond.dbd"@))
        .push(("traitcondaccountelement"@, "TraitCondAccountElement.dbd"@))
        .push(("traitcost"@, "TraitCost.dbd"@))
        .push(("traitcostdefinition"@, "TraitCostDefinition.dbd"@))
        .push(("traitcurrency"@, "TraitCurrency.dbd"@))
        .push(("traitcurrencysource"@, "TraitCurrencySource.dbd"@))
        .push(("traitdefinition"@, "TraitDefinition.dbd"@))
        .push(("traitdefinitioneffectpoints"@, "TraitDefinitionEffectPoints.dbd"@))
        .push(("traitnode"@, "TraitNode.dbd"@))
        .push(("traitnodeentry"@, "TraitNodeEntry.dbd"@))
        .push(("traitnodeentryxtraitcond"@, "TraitNodeEntryXTraitCond.dbd"@))
        .push(("traitnodeentryxtraitcost"@, "TraitNodeEntryXTraitCost.dbd"@))
        .push(("traitnodegroup"@, "TraitNodeGroup.dbd"@))
        .push(("traitnodegroupxtraitcond"@, "TraitNodeGroupXTraitCond.dbd"@))
        .push(("traitnodegroupxtraitcost"@, "TraitNodeGroupXTraitCost.dbd"@))
        .push(("traitnodegroupxtraitnode"@, "TraitNodeGroupXTraitNode.dbd"@))
        .push(("traitnodextraitcond"@, "TraitNodeXTraitCond.dbd"@))
        .push(("traitnodextraitcost"@, "TraitNodeXTraitCost.dbd"@))
        .push(("traitnodextraitnodeentry"@, "TraitNodeXTraitNodeEntry.dbd"@))
        .push(("traitsubtree"@, "TraitSubTree.dbd"@))
        .push(("traitsystem"@, "TraitSystem.dbd"@))
        .push(("traittree"@, "TraitTree.dbd"@))
        .push(("traittreeloadout"@, "TraitTreeLoadout.dbd"@))
        .push(("traittreextraitcost"@, "TraitTreeXTraitCost.dbd"@))
        .push(("traittreextraitcurrency"@, "TraitTreeXTraitCurrency.dbd"@))
        .push(("transformmatrix"@, "TransformMatrix.dbd"@))
        .push(("transmogdefaultlevel"@, "TransmogDefaultLevel.dbd"@))
        .push(("transmogholiday"@, "TransmogHoliday.dbd"@))
        .push(("transmogillusion"@, "TransmogIllusion.dbd"@))
        .push(("transmogset"@, "TransmogSet.dbd"@))
        .push(("transmogsetgroup"@, "TransmogSetGroup.dbd"@))
        .push(("transmogsetitem"@, "TransmogSetItem.dbd"@))
        .push(("transportanimation"@, "TransportAnimation.dbd"@))
        .push(("transportphysics"@, "TransportPhysics.dbd"@))
        .push(("transportrotation"@, "TransportRotation.dbd"@))
        .push(("treasure"@, "Treasure.dbd"@))
        .push(("trophy"@, "Trophy.dbd"@))
        .push(("trophyinstance"@, "TrophyInstance.dbd"@))
        .push(("uiarrowcallout"@, "UIArrowCallout.dbd"@))
        .push(("uibutton"@, "UIButton.dbd"@))
        .push(("uicamera"@, "UiCamera.dbd"@))
        .push(("uicameratype"@, "UiCameraType.dbd"@))
        .push(("uicamfbacktalkingheadchrrace"@, "UiCamFbackTalkingHeadChrRace.dbd"@))
        .push(("uicamfbacktransmogchrrace"@, "UiCamFbackTransmogChrRace.dbd"@))
        .push(("uicamfbacktransmogweapon"@, "UiCamFbackTransmogWeapon.dbd"@))
        .push(("uicanvas"@, "UiCanvas.dbd"@))
        .push(("uichromietimeexpansioninfo"@, "UIChromieTimeExpansionInfo.dbd"@))
        .push(("uicinematicintroinfo"@, "UICinematicIntroInfo.dbd"@))
        .push(("uicovenantability"@, "UICovenantAbility.dbd"@))
        .push(("uicovenantdisplayinfo"@, "UiCovenantDisplayInfo.dbd"@))
        .push(("uicovenantpreview"@, "UICovenantPreview.dbd"@))
        .push(("uideadlydebuff"@, "UIDeadlyDebuff.dbd"@))
        .push(("uidungeonscorerarity"@, "UIDungeonScoreRarity.dbd"@))
        .push(("uiexpansiondisplayinfo"@, "UIExpansionDisplayInfo.dbd"@))
        .push(("uiexpansiondisplayinfoicon"@, "UIExpansionDisplayInfoIcon.dbd"@))
        .push(("uigenericwidgetdisplay"@, "UIGenericWidgetDisplay.dbd"@))
        .push(("uiiteminteraction"@, "UiItemInteraction.dbd"@))
        .push(("uimap"@, "UiMap.dbd"@))
        .push(("uimapart"@, "UiMapArt.dbd"@))
        .push(("uimapartstylelayer"@, "UiMapArtStyleLayer.dbd"@))
        .push(("uimaparttile"@, "UiMapArtTile.dbd"@))
        .push(("uimapassignment"@, "UiMapAssignment.dbd"@))
        .push(("uimapfogofwar"@, "UiMapFogOfWar.dbd"@))
        .push(("uimapfogofwarvisualization"@, "UiMapFogOfWarVisualization.dbd"@))
        .push(("uimapgroup"@, "UiMapGroup.dbd"@))
        .push(("uimapgroupmember"@, "UiMapGroupMember.dbd"@))
        .push(("uimaplink"@, "UiMapLink.dbd"@))
        .push(("uimappininfo"@, "UIMapPinInfo.dbd"@))
        .push(("uimapxmapart"@, "UiMapXMapArt.dbd"@))
        .push(("uimodelscene"@, "UiModelScene.dbd"@))
        .push(("uimodelsceneactor"@, "UiModelSceneActor.dbd"@))
        .push(("uimodelsceneactordisplay"@, "UiModelSceneActorDisplay.dbd"@))
        .push(("uimodelscenecamera"@, "UiModelSceneCamera.dbd"@))
        .push(("uimodifiedinstance"@, "UIModifiedInstance.dbd"@))
        .push(("uipartypose"@, "UiPartyPose.dbd"@))
        .push(("uiquestdetailstheme"@, "UiQuestDetailsTheme.dbd"@))
        .push(("uiscriptedanimationeffect"@, "UIScriptedAnimationEffect.dbd"@))
        .push(("uisoundlookups"@, "UISoundLookups.dbd"@))
        .push(("uisplashscreen"@, "UISplashScreen.dbd"@))
        .push(("uitextureatlas"@, "UiTextureAtlas.dbd"@))
        .push(("uitextureatlaselement"@, "UiTextureAtlasElement.dbd"@))
        .push(("uitextureatlaselementoverride"@, "UiTextureAtlasElementOverride.dbd"@))
        .push(("uitextureatlaselementslicedata"@, "UiTextureAtlasElementSliceData.dbd"@))
        .push(("uitexturekit"@, "UiTextureKit.dbd"@))
        .push(("uiweeklyreward"@, "UiWeeklyReward.dbd"@))
        .push(("uiwidget"@, "UiWidget.dbd"@))
        .push(("uiwidgetconstantsource"@, "UiWidgetConstantSource.dbd"@))
        .push(("uiwidgetdatasource"@, "UiWidgetDataSource.dbd"@))
        .push(("uiwidgetmap"@, "UiWidgetMap.dbd"@))
        .push(("uiwidgetset"@, "UiWidgetSet.dbd"@))
        .push(("uiwidgetstringsource"@, "UiWidgetStringSource.dbd"@))
        .push(("uiwidgetvistypedatareq"@, "UiWidgetVisTypeDataReq.dbd"@))
        .push(("uiwidgetvisualization"@, "UiWidgetVisualization.dbd"@))
        .push(("uiwidgetxwidgetset"@, "UiWidgetXWidgetSet.dbd"@))
        .push(("unitblood"@, "UnitBlood.dbd"@))
        .push(("unitbloodlevels"@, "UnitBloodLevels.dbd"@))
        .push(("unitcondition"@, "UnitCondition.dbd"@))
        .push(("unitpowerbar"@, "UnitPowerBar.dbd"@))
        .push(("unittest"@, "UnitTest.dbd"@))
        .push(("vehicle"@, "Vehicle.dbd"@))
        .push(("vehiclepoitype"@, "VehiclePOIType.dbd"@))
        .push(("vehicleseat"@, "VehicleSeat.dbd"@))
        .push(("vehicleuiindicator"@, "VehicleUIIndicator.dbd"@))
        .push(("vehicleuiindseat"@, "VehicleUIIndSeat.dbd"@))
        .push(("videohardware"@, "VideoHardware.dbd"@))
        .push(("vignette"@, "Vignette.dbd"@))
        .push(("vignetteuiwidgetset"@, "VignetteUiWidgetSet.dbd"@))
        .push(("virtualattachment"@, "VirtualAttachment.dbd"@))
        .push(("virtualattachmentcustomization"@, "VirtualAttachmentCustomization.dbd"@))
        .push(("vocaluisounds"@, "VocalUISounds.dbd"@))
        .push(("voiceoverpriority"@, "VoiceOverPriority.dbd"@))
        .push(("volumefogcondition"@, "VolumeFogCondition.dbd"@))
        .push(("vw_mobilespell"@, "VW_MobileSpell.dbd"@))
        .push(("warbandplacementdisplayinfo"@, "WarbandPlacementDisplayInfo.dbd"@))
        .push(("warbandsceneanimation"@, "WarbandSceneAnimation.dbd"@))
        .push(("warbandsceneanimchrspec"@, "WarbandSceneAnimChrSpec.dbd"@))
        .push(("warbandsceneplacement"@, "WarbandScenePlacement.dbd"@))
        .push(("warbandsceneplacementfilterreq"@, "WarbandScenePlacementFilterReq.dbd"@))
        .push(("warbandsceneplacementoption"@, "WarbandScenePlacementOption.dbd"@))
        .push(("warbandsceneplcmntanimoverride"@, "WarbandScenePlcmntAnimOverride.dbd"@))
        .push(("warbandscenesourceinfo"@, "WarbandSceneSourceInfo.dbd"@))
        .push(("waterfalldata"@, "WaterfallData.dbd"@))
        .push(("waypointedge"@, "WaypointEdge.dbd"@))
        .push(("waypointmapvolume"@, "WaypointMapVolume.dbd"@))
        .push(("waypointnode"@, "WaypointNode.dbd"@))
        .push(("waypointsafelocs"@, "WaypointSafeLocs.dbd"@))
        .push(("wbaccesscontrollist"@, "WbAccessControlList.dbd"@))
        .push(("wbcertblacklist"@, "WbCertBlacklist.dbd"@))
        .push(("wbcertwhitelist"@, "WbCertWhitelist.dbd"@))
        .push(("weaponimpactsounds"@, "WeaponImpactSounds.dbd"@))
        .push(("weaponswingsounds2"@, "WeaponSwingSounds2.dbd"@))
        .push(("weapontrail"@, "WeaponTrail.dbd"@))
        .push(("weapontrailmodeldef"@, "WeaponTrailModelDef.dbd"@))
        .push(("weapontrailparam"@, "WeaponTrailParam.dbd"@))
        .push(("weather"@, "Weather.dbd"@))
        .push(("weatherxparticulate"@, "WeatherXParticulate.dbd"@))
        .push(("weeklyrewardchestactivitytier"@, "WeeklyRewardChestActivityTier.dbd"@))
        .push(("weeklyrewardchestthreshold"@, "WeeklyRewardChestThreshold.dbd"@))
        .push(("windsettings"@, "WindSettings.dbd"@))
        .push(("wmoareatable"@, "WMOAreaTable.dbd"@))
        .push(("wmominimaptexture"@, "WMOMinimapTexture.dbd"@))
        .push(("worldbosslockout"@, "WorldBossLockout.dbd"@))
        .push(("worldchunksounds"@, "WorldChunkSounds.dbd"@))
        .push(("worldeffect"@, "WorldEffect.dbd"@))
        .push(("worldelapsedtimer"@, "WorldElapsedTimer.dbd"@))
        .push(("worldmaparea"@, "WorldMapArea.dbd"@))
        .push(("worldmapcontinent"@, "WorldMapContinent.dbd"@))
        .push(("worldmapoverlay"@, "WorldMapOverlay.dbd"@))
        .push(("worldmapoverlaytile"@, "WorldMapOverlayTile.dbd"@))
        .push(("worldmaptransforms"@, "WorldMapTransforms.dbd"@))
        .push(("worldsafelocs"@, "WorldSafeLocs.dbd"@))
        .push(("worldshadow"@, "WorldShadow.dbd"@))
        .push(("worldstate"@, "WorldState.dbd"@))
        .push(("worldstateexpression"@, "WorldStateExpression.dbd"@))
        .push(("worldstateui"@, "WorldStateUI.dbd"@))
        .push(("worldstatezonesounds"@, "WorldStateZoneSounds.dbd"@))
        .push(("world_pvp_area"@, "World_PVP_Area.dbd"@))
        .push(("wowerror_strings"@, "WowError_Strings.dbd"@))
        .push(("zoneintromusictable"@, "ZoneIntroMusicTable.dbd"@))
        .push(("zonelight"@, "ZoneLight.dbd"@))
        .push(("zonelightpoint"@, "ZoneLightPoint.dbd"@))
        .push(("zonemusic"@, "ZoneMusic.dbd"@))
        .push(("zonestory"@, "ZoneStory.dbd"@))
        .push(("guildcolorborder"@, "GuildColorBorder.dbd"@))
        .push(("guildcoloremblem"@, "GuildColorEmblem.dbd"@))
        .push(("guildemblem"@, "GuildEmblem.dbd"@))
        .push(("guildperkspells"@, "GuildPerkSpells.dbd"@))
        .push(("guildshirtbackground"@, "GuildShirtBackground.dbd"@))
        .push(("guildshirtborder"@, "GuildShirtBorder.dbd"@))
        .push(("guildtabardbackground"@, "GuildTabardBackground.dbd"@))
        .push(("guildtabardborder"@, "GuildTabardBorder.dbd"@))
        .push(("guildtabardemblem"@, "GuildTabardEmblem.dbd"@))
        .push(("heirloom"@, "Heirloom.dbd"@))
        .push(("helmetanimscaling"@, "HelmetAnimScaling.dbd"@))
        .push(("helmetgeosetdata"@, "HelmetGeosetData.dbd"@))
        .push(("helmetgeosetvisdata"@, "HelmetGeosetVisData.dbd"@))
        .push(("highlightcolor"@, "HighlightColor.dbd"@))
}

/// One slice of the embedded catalog data; it carries exactly the
/// pairs its specification-level slice states.
fn catalog_entries_a() -> (m: Vec<(&'static str, &'static str)>)
    ensures
        m@.len() == 210,
        entry_views(m@) == catalog_data_a(),
{
    let mut m: Vec<(&'static str, &'static str)> = Vec::new();
    let ghost mut g: Seq<(Seq<char>, Seq<char>)> = Seq::empty();
    proof {
        assert(entry_views(m@) =~~= g);
    }
    m.push(("accountstorecategory", "AccountStoreCategory.dbd"));
    proof {
        g = g.push(("accountstorecategory"@, "AccountStoreCategory.dbd"@));
        assert(entry_views(m@) =~~= g);
    }
    m.push(("accountstoreitem", "AccountStoreItem.dbd"));
    proof {
        g = g.push(("accountstoreitem"@, "AccountStoreItem.dbd"@));
        assert(entry_views(m@) =~~= g);
    }
    m.push(("achievement", "Achievement.dbd"));
    proof {
        g = g.push(("achievement"@, "Achievement.dbd"@));
        assert(entry_views(m@) =~~= g);
    }
    m.push(("achievement_category", "Achievement_Category.dbd"));
    proof {
        g = g.push(("achievement_category"@, "Achievement_Category.dbd"@));
        assert(entry_views(m@) =~~= g);
    }
    m.push(("achievement_criteria", "Achievement_Criteria.dbd"));
    proof {
        g = g.push(("achievement_criteria"@, "Achievement_Criteria.dbd"@));
        assert(entry_views(m@) =~~= g);
    }
    m.push(("actionbargroup", "ActionBarGroup.dbd"));
    proof {
        g = g.push(("actionbargroup"@, "ActionBarGroup.dbd"@));
        assert(entry_views(m@) =~~= g);
    }
    m.push(("actionbargroupentry", "ActionBarGroupEntry.dbd"));
    proof {
        g = g.push(("actionbargroupentry"@, "ActionBarGroupEntry.dbd"@));
        assert(entry_views(m@) =~~= g);
    }
    m.push(("adventurejournal", "AdventureJournal.dbd"));
    proof {
        g = g.push(("adventurejournal"@, "AdventureJournal.dbd"@));
        assert(entry_views(m@) =~~= g);
    }
    m.push(("adventurejournalitem", "AdventureJournalItem.dbd"));
    proof {
        g = g.push(("adventurejournalitem"@, "AdventureJournalItem.dbd"@));
        assert(entry_views(m@) =~~= g);
    }
    m.push(("adventuremappoi", "AdventureMapPOI.dbd"));
    proof {
        g = g.push(("adventuremappoi"@, "AdventureMapPOI.dbd"@));
        assert(entry_views(m@) =~~= g);
    }
    m.push(("alliedrace", "AlliedRace.dbd"));
    proof {
        g = g.push(("alliedrace"@, "AlliedRace.dbd"@));
        assert(entry_views(m@) =~~= g);
    }
    m.push(("alliedraceracialability", "AlliedRaceRacialAbility.dbd"));
    proof {
        g = g.push(("alliedraceracialability"@, "AlliedRaceRacialAbility.dbd"@));
        assert(entry_views(m@) =~~= g);
    }
    m.push(("altminimap", "AltMinimap.dbd"));
    proof {
        g = g.push(("altminimap"@, "AltMinimap.dbd"@));
        assert(entry_views(m@) =~~= g);
    }
    m.push(("altminimapfiledata", "AltMinimapFiledata.dbd"));
    proof {
        g = g.push(("altminimapfiledata"@, "AltMinimapFiledata.dbd"@));
        assert(entry_views(m@) =~~= g);
    }
    m.push(("altminimapwmo", "AltMinimapWMO.dbd"));
    proof {
        g = g.push(("altminimapwmo"@, "AltMinimapWMO.dbd"@));
        assert(entry_views(m@) =~~= g);
    }
    m.push(("animacable", "AnimaCable.dbd"));
    proof {
        g = g.push(("animacable"@, "AnimaCable.dbd"@));
        assert(entry_views(m@) =~~= g);
    }
    m.push(("animamaterial", "AnimaMaterial.dbd"));
    proof {
        g = g.push(("animamaterial"@, "AnimaMaterial.dbd"@));
        assert(entry_views(m@) =~~= g);
    }
    m.push(("animationdata", "AnimationData.dbd"));
    proof {
        g = g.push(("animationdata"@, "AnimationData.dbd"@));
        assert(entry_views(m@) =~~= g);
    }
    m.push(("animationnames", "AnimationNames.dbd"));
    proof {
        g = g.push(("animationnames"@, "AnimationNames.dbd"@));
        assert(entry_views(m@) =~~= g);
    }
    m.push(("animkit", "AnimKit.dbd"));
    proof {
        g = g.push(("animkit"@, "AnimKit.dbd"@));
        assert(entry_views(m@) =~~= g);
    }
    m.push(("animkitboneset", "AnimKitBoneSet.dbd"));
    proof {
        g = g.push(("animkitboneset"@, "AnimKitBoneSet.dbd"@));
        assert(entry_views(m@) =~~= g);
    }
    m.push(("animkitbonesetalias", "AnimKitBoneSetAlias.dbd"));
    proof {
        g = g.push(("animkitbonesetalias"@, "AnimKitBoneSetAlias.dbd"@));
        assert(entry_views(m@) =~~= g);
    }
    m.push(("animkitconfig", "AnimKitConfig.dbd"));
    proof {
        g = g.push(("animkitconfig"@, "AnimKitConfig.dbd"@));
        assert(entry_views(m@) =~~= g);
    }
    m.push(("animkitconfigboneset", "AnimKitConfigBoneSet.dbd"));
    proof {
        g = g.push(("animkitconfigboneset"@, "AnimKitConfigBoneSet.dbd"@));
        assert(entry_views(m@) =~~= g);
    }
    m.push(("animkitpriority", "AnimKitPriority.dbd"));
    proof {
        g = g.push(("animkitpriority"@, "AnimKitPriority.dbd"@));
        assert(entry_views(m@) =~~= g);
    }
    m.push(("animkitreplacement", "AnimKitReplacement.dbd"));
    proof {
        g = g.push(("animkitreplacement"@, "AnimKitReplacement.dbd"@));
        assert(entry_views(m@) =~~= g);
    }
    m.push(("animkitsegment", "AnimKitSegment.dbd"));
    proof {
        g = g.push(("animkitsegment"@, "AnimKitSegment.dbd"@));
        assert(entry_views(m@) =~~= g);
    }
    m.push(("animreplacement", "AnimReplacement.dbd"));
    proof {
        g = g.push(("animreplacement"@, "AnimReplacement.dbd"@));
        assert(entry_views(m@) =~~= g);
    }
    m.push(("animreplacementset", "AnimReplacementSet.dbd"));
    proof {
        g = g.push(("animreplacementset"@, "AnimReplacementSet.dbd"@));
        assert(entry_views(m@) =~~= g);
    }
    m.push(("aoibox", "AoiBox.dbd"));
    proof {
        g = g.push(("aoibox"@, "AoiBox.dbd"@));
        assert(entry_views(m@) =~~= g);
        assert(m@.len() == 30);
    }
    m.push(("areaassignment", "AreaAssignment.dbd"));
    proof {
        g = g.push(("areaassignment"@, "AreaAssignment.dbd"@));
        assert(entry_views(m@) =~~= g);
    }
    m.push(("areaconditionaldata", "AreaConditionalData.dbd"));
    proof {
        g = g.push(("areaconditionaldata"@, "AreaConditionalData.dbd"@));
        assert(entry_views(m@) =~~= g);
    }
    m.push(("areagroup", "AreaGroup.dbd"));
    proof {
        g = g.push(("areagroup"@, "AreaGroup.dbd"@));
        assert(entry_views(m@) =~~= g);
    }
    m.push(("areagroupmember", "AreaGroupMember.dbd"));
    proof {
        g = g.push(("areagroupmember"@, "AreaGroupMember.dbd"@));
        assert(entry_views(m@) =~~= g);
    }
    m.push(("areamidiambiences", "AreaMIDIAmbiences.dbd"));
    proof {
        g = g.push(("areamidiambiences"@, "AreaMIDIAmbiences.dbd"@));
        assert(entry_views(m@) =~~= g);
    }
    m.push(("areapoi", "AreaPOI.dbd"));
    proof {
        g = g.push(("areapoi"@, "AreaPOI.dbd"@));
        assert(entry_views(m@) =~~= g);
    }
    m.push(("areapoisortedworldstate", "AreaPOISortedWorldState.dbd"));
    proof {
        g = g.push(("areapoisortedworldstate"@, "AreaPOISortedWorldState.dbd"@));
        assert(entry_views(m@) =~~= g);
    }
    m.push(("areapoistate", "AreaPOIState.dbd"));
    proof {
        g = g.push(("areapoistate"@, "AreaPOIState.dbd"@));
        assert(entry_views(m@) =~~= g);
    }
    m.push(("areapoiuiwidgetset", "AreaPOIUiWidgetSet.dbd"));
    proof {
        g = g.push(("areapoiuiwidgetset"@, "AreaPOIUiWidgetSet.dbd"@));
        assert(entry_views(m@) =~~= g);
    }
    m.push(("areatable", "AreaTable.dbd"));
    proof {
        g = g.push(("areatable"@, "AreaTable.dbd"@));
        assert(entry_views(m@) =~~= g);
    }
    m.push(("areatrigger", "AreaTrigger.dbd"));
    proof {
        g = g.push(("areatrigger"@, "AreaTrigger.dbd"@));
        assert(entry_views(m@) =~~= g);
    }
    m.push(("areatriggeractionset", "AreaTriggerActionSet.dbd"));
    proof {
        g = g.push(("areatriggeractionset"@, "AreaTriggerActionSet.dbd"@));
        assert(entry_views(m@) =~~= g);
    }
    m.push(("areatriggerboundedplane", "AreaTriggerBoundedPlane.dbd"));
    proof {
        g = g.push(("areatriggerboundedplane"@, "AreaTriggerBoundedPlane.dbd"@));
        assert(entry_views(m@) =~~= g);
    }
    m.push(("areatriggerbox", "AreaTriggerBox.dbd"));
    proof {
        g = g.push(("areatriggerbox"@, "AreaTriggerBox.dbd"@));
        assert(entry_views(m@) =~~= g);
    }
    m.push(("areatriggercreateproperties", "AreaTriggerCreateProperties.dbd"));
    proof {
        g = g.push(("areatriggercreateproperties"@, "AreaTriggerCreateProperties.dbd"@));
        assert(entry_views(m@) =~~= g);
    }
    m.push(("areatriggercylinder", "AreaTriggerCylinder.dbd"));
    proof {
        g = g.push(("areatriggercylinder"@, "AreaTriggerCylinder.dbd"@));
        assert(entry_views(m@) =~~= g);
    }
    m.push(("areatriggerdisk", "AreaTriggerDisk.dbd"));
    proof {
        g = g.push(("areatriggerdisk"@, "AreaTriggerDisk.dbd"@));
        assert(entry_views(m@) =~~= g);
    }
    m.push(("areatriggersphere", "AreaTriggerSphere.dbd"));
    proof {
        g = g.push(("areatriggersphere"@, "AreaTriggerSphere.dbd"@));
        assert(entry_views(m@) =~~= g);
    }
    m.push(("arenatrackeditem", "ArenaTrackedItem.dbd"));
    proof {
        g = g.push(("arenatrackeditem"@, "ArenaTrackedItem.dbd"@));
        assert(entry_views(m@) =~~= g);
    }
    m.push(("armorlocation", "ArmorLocation.dbd"));
    proof {
        g = g.push(("armorlocation"@, "ArmorLocation.dbd"@));
        assert(entry_views(m@) =~~= g);
    }
    m.push(("artifact", "Artifact.dbd"));
    proof {
        g = g.push(("artifact"@, "Artifact.dbd"@));
        assert(entry_views(m@) =~~= g);
    }
    m.push(("artifactappearance", "ArtifactAppearance.dbd"));
    proof {
        g = g.push(("artifactappearance"@, "ArtifactAppearance.dbd"@));
        assert(entry_views(m@) =~~= g);
    }
    m.push(("artifactappearanceset", "ArtifactAppearanceSet.dbd"));
    proof {
        g = g.push(("artifactappearanceset"@, "ArtifactAppearanceSet.dbd"@));
        assert(entry_views(m@) =~~= g);
    }
    m.push(("artifactcategory", "ArtifactCategory.dbd"));
    proof {
        g = g.push(("artifactcategory"@, "ArtifactCategory.dbd"@));
        assert(entry_views(m@) =~~= g);
    }
    m.push(("artifactitemtotransmog", "ArtifactItemToTransmog.dbd"));
    proof {
        g = g.push(("artifactitemtotransmog"@, "ArtifactItemToTransmog.dbd"@));
        assert(entry_views(m@) =~~= g);
    }
    m.push(("artifactpower", "ArtifactPower.dbd"));
    proof {
        g = g.push(("artifactpower"@, "ArtifactPower.dbd"@));
        assert(entry_views(m@) =~~= g);
    }
    m.push(("artifactpowerlink", "ArtifactPowerLink.dbd"));
    proof {
        g = g.push(("artifactpowerlink"@, "ArtifactPowerLink.dbd"@));
        assert(entry_views(m@) =~~= g);
    }
    m.push(("artifactpowerpicker", "ArtifactPowerPicker.dbd"));
    proof {
        g = g.push(("artifactpowerpicker"@, "ArtifactPowerPicker.dbd"@));
        assert(entry_views(m@) =~~= g);
    }
    m.push(("artifactpowerrank", "ArtifactPowerRank.dbd"));
    proof {
        g = g.push(("artifactpowerrank"@, "ArtifactPowerRank.dbd"@));
        assert(entry_views(m@) =~~= g);
    }
    m.push(("artifactquestxp", "ArtifactQuestXP.dbd"));
    proof {
        g = g.push(("artifactquestxp"@, "ArtifactQuestXP.dbd"@));
        assert(entry_views(m@) =~~= g);
        assert(m@.len() == 60);
    }
    m.push(("artifacttier", "ArtifactTier.dbd"));
    proof {
        g = g.push(("artifacttier"@, "ArtifactTier.dbd"@));
        assert(entry_views(m@) =~~= g);
    }
    m.push(("artifactunlock", "ArtifactUnlock.dbd"));
    proof {
        g = g.push(("artifactunlock"@, "ArtifactUnlock.dbd"@));
        assert(entry_views(m@) =~~= g);
    }
    m.push(("assistedcombat", "AssistedCombat.dbd"));
    proof {
        g = g.push(("assistedcombat"@, "AssistedCombat.dbd"@));
        assert(entry_views(m@) =~~= g);
    }
    m.push(("animacylinder", "AnimaCylinder.dbd"));
    proof {
        g = g.push(("animacylinder"@, "AnimaCylinder.dbd"@));
        assert(entry_views(m@) =~~= g);
    }
    m.push(("areafarclipoverride", "AreaFarClipOverride.dbd"));
    proof {
        g = g.push(("areafarclipoverride"@, "AreaFarClipOverride.dbd"@));
        assert(entry_views(m@) =~~= g);
    }
    m.push(("arenaccitem", "ArenaCcItem.dbd"));
    proof {
        g = g.push(("arenaccitem"@, "ArenaCcItem.dbd"@));
        assert(entry_views(m@) =~~= g);
    }
    m.push(("assistedcombatrule", "AssistedCombatRule.dbd"));
    proof {
        g = g.push(("assistedcombatrule"@, "AssistedCombatRule.dbd"@));
        assert(entry_views(m@) =~~= g);
    }
    m.push(("azeritetierunlockset", "AzeriteTierUnlockSet.dbd"));
    proof {
        g = g.push(("azeritetierunlockset"@, "AzeriteTierUnlockSet.dbd"@));
        assert(entry_views(m@) =~~= g);
    }
    m.push(("battlepetdisplayoverride", "BattlePetDisplayOverride.dbd"));
    proof {
        g = g.push(("battlepetdisplayoverride"@, "BattlePetDisplayOverride.dbd"@));
        assert(entry_views(m@) =~~= g);
    }
    m.push(("broadcasttextduration", "BroadcastTextDuration.dbd"));
    proof {
        g = g.push(("broadcasttextduration"@, "BroadcastTextDuration.dbd"@));
        assert(entry_views(m@) =~~= g);
    }
    m.push(("cfg_realms", "Cfg_Realms.dbd"));
    proof {
        g = g.push(("cfg_realms"@, "Cfg_Realms.dbd"@));
        assert(entry_views(m@) =~~= g);
    }
    m.push(("charcomponenttexturesections", "CharComponentTextureSections.dbd"));
    proof {
        g = g.push(("charcomponenttexturesections"@, "CharComponentTextureSections.dbd"@));
        assert(entry_views(m@) =~~= g);
    }
    m.push(("chrclassracesex", "ChrClassRaceSex.dbd"));
    proof {
        g = g.push(("chrclassracesex"@, "ChrClassRaceSex.dbd"@));
        assert(entry_views(m@) =~~= g);
    }
    m.push(("chrcustomizationconversion", "ChrCustomizationConversion.dbd"));
    proof {
        g = g.push(("chrcustomizationconversion"@, "ChrCustomizationConversion.dbd"@));
        assert(entry_views(m@) =~~= g);
    }
    m.push(("chrproficiency", "ChrProficiency.dbd"));
    proof {
        g = g.push(("chrproficiency"@, "ChrProficiency.dbd"@));
        assert(entry_views(m@) =~~= g);
    }
    m.push(("clientsettings", "ClientSettings.dbd"));
    proof {
        g = g.push(("clientsettings"@, "ClientSettings.dbd"@));
        assert(entry_views(m@) =~~= g);
    }
    m.push(("communityicon", "CommunityIcon.dbd"));
    proof {
        g = g.push(("communityicon"@, "CommunityIcon.dbd"@));
        assert(entry_views(m@) =~~= g);
    }
    m.push(("assistedcombatstep", "AssistedCombatStep.dbd"));
    proof {
        g = g.push(("assistedcombatstep"@, "AssistedCombatStep.dbd"@));
        assert(entry_views(m@) =~~= g);
    }
    m.push(("attackanimkits", "AttackAnimKits.dbd"));
    proof {
        g = g.push(("attackanimkits"@, "AttackAnimKits.dbd"@));
        assert(entry_views(m@) =~~= g);
    }
    m.push(("attackanimtypes", "AttackAnimTypes.dbd"));
    proof {
        g = g.push(("attackanimtypes"@, "AttackAnimTypes.dbd"@));
        assert(entry_views(m@) =~~= g);
    }
    m.push(("auctionhouse", "AuctionHouse.dbd"));
    proof {
        g = g.push(("auctionhouse"@, "AuctionHouse.dbd"@));
        assert(entry_views(m@) =~~= g);
    }
    m.push(("auctionhousecategory", "AuctionHouseCategory.dbd"));
    proof {
        g = g.push(("auctionhousecategory"@, "AuctionHouseCategory.dbd"@));
        assert(entry_views(m@) =~~= g);
    }
    m.push(("azeriteempowereditem", "AzeriteEmpoweredItem.dbd"));
    proof {
        g = g.push(("azeriteempowereditem"@, "AzeriteEmpoweredItem.dbd"@));
        assert(entry_views(m@) =~~= g);
    }
    m.push(("azeriteessence", "AzeriteEssence.dbd"));
    proof {
        g = g.push(("azeriteessence"@, "AzeriteEssence.dbd"@));
        assert(entry_views(m@) =~~= g);
    }
    m.push(("azeriteessencepower", "AzeriteEssencePower.dbd"));
    proof {
        g = g.push(("azeriteessencepower"@, "AzeriteEssencePower.dbd"@));
        assert(entry_views(m@) =~~= g);
    }
    m.push(("azeriteitem", "AzeriteItem.dbd"));
    proof {
        g = g.push(("azeriteitem"@, "AzeriteItem.dbd"@));
        assert(entry_views(m@) =~~= g);
    }
    m.push(("azeriteitemmilestonepower", "AzeriteItemMilestonePower.dbd"));
    proof {
        g = g.push(("azeriteitemmilestonepower"@, "AzeriteItemMilestonePower.dbd"@));
        assert(entry_views(m@) =~~= g);
    }
    m.push(("azeriteknowledgemultiplier", "AzeriteKnowledgeMultiplier.dbd"));
    proof {
        g = g.push(("azeriteknowledgemultiplier"@, "AzeriteKnowledgeMultiplier.dbd"@));
        assert(entry_views(m@) =~~= g);
    }
    m.push(("azeritelevelinfo", "AzeriteLevelInfo.dbd"));
    proof {
        g = g.push(("azeritelevelinfo"@, "AzeriteLevelInfo.dbd"@));
        assert(entry_views(m@) =~~= g);
    }
    m.push(("azeritepower", "AzeritePower.dbd"));
    proof {
        g = g.push(("azeritepower"@, "AzeritePower.dbd"@));
        assert(entry_views(m@) =~~= g);
        assert(m@.len() == 90);
    }
    m.push(("azeritepowersetmember", "AzeritePowerSetMember.dbd"));
    proof {
        g = g.push(("azeritepowersetmember"@, "AzeritePowerSetMember.dbd"@));
        assert(entry_views(m@) =~~= g);
    }
    m.push(("azeritetierunlock", "AzeriteTierUnlock.dbd"));
    proof {
        g = g.push(("azeritetierunlock"@, "AzeriteTierUnlock.dbd"@));
        assert(entry_views(m@) =~~= g);
    }
    m.push(("azeriteunlockmapping", "AzeriteUnlockMapping.dbd"));
    proof {
        g = g.push(("azeriteunlockmapping"@, "AzeriteUnlockMapping.dbd"@));
        assert(entry_views(m@) =~~= g);
    }
    m.push(("bankbagslotprices", "BankBagSlotPrices.dbd"));
    proof {
        g = g.push(("bankbagslotprices"@, "BankBagSlotPrices.dbd"@));
        assert(entry_views(m@) =~~= g);
    }
    m.push(("banktab", "BankTab.dbd"));
    proof {
        g = g.push(("banktab"@, "BankTab.dbd"@));
        assert(entry_views(m@) =~~= g);
    }
    m.push(("bannedaddons", "BannedAddons.dbd"));
    proof {
        g = g.push(("bannedaddons"@, "BannedAddons.dbd"@));
        assert(entry_views(m@) =~~= g);
    }
    m.push(("barbershopstyle", "BarberShopStyle.dbd"));
    proof {
        g = g.push(("barbershopstyle"@, "BarberShopStyle.dbd"@));
        assert(entry_views(m@) =~~= g);
    }
    m.push(("barrageeffect", "BarrageEffect.dbd"));
    proof {
        g = g.push(("barrageeffect"@, "BarrageEffect.dbd"@));
        assert(entry_views(m@) =~~= g);
    }
    m.push(("battlemasterlist", "BattlemasterList.dbd"));
    proof {
        g = g.push(("battlemasterlist"@, "BattlemasterList.dbd"@));
        assert(entry_views(m@) =~~= g);
    }
    m.push(("battlemasterlistxmap", "BattlemasterListXMap.dbd"));
    proof {
        g = g.push(("battlemasterlistxmap"@, "BattlemasterListXMap.dbd"@));
        assert(entry_views(m@) =~~= g);
    }
    m.push(("battlepaycurrency", "BattlepayCurrency.dbd"));
    proof {
        g = g.push(("battlepaycurrency"@, "BattlepayCurrency.dbd"@));
        assert(entry_views(m@) =~~= g);
    }
    m.push(("battlepetability", "BattlePetAbility.dbd"));
    proof {
        g = g.push(("battlepetability"@, "BattlePetAbility.dbd"@));
        assert(entry_views(m@) =~~= g);
    }
    m.push(("battlepetabilityeffect", "BattlePetAbilityEffect.dbd"));
    proof {
        g = g.push(("battlepetabilityeffect"@, "BattlePetAbilityEffect.dbd"@));
        assert(entry_views(m@) =~~= g);
    }
    m.push(("battlepetabilitystate", "BattlePetAbilityState.dbd"));
    proof {
        g = g.push(("battlepetabilitystate"@, "BattlePetAbilityState.dbd"@));
        assert(entry_views(m@) =~~= g);
    }
    m.push(("battlepetabilityturn", "BattlePetAbilityTurn.dbd"));
    proof {
        g = g.push(("battlepetabilityturn"@, "BattlePetAbilityTurn.dbd"@));
        assert(entry_views(m@) =~~= g);
    }
    m.push(("battlepetbreedquality", "BattlePetBreedQuality.dbd"));
    proof {
        g = g.push(("battlepetbreedquality"@, "BattlePetBreedQuality.dbd"@));
        assert(entry_views(m@) =~~= g);
    }
    m.push(("battlepetbreedstate", "BattlePetBreedState.dbd"));
    proof {
        g = g.push(("battlepetbreedstate"@, "BattlePetBreedState.dbd"@));
        assert(entry_views(m@) =~~= g);
    }
    m.push(("battlepeteffectproperties", "BattlePetEffectProperties.dbd"));
    proof {
        g = g.push(("battlepeteffectproperties"@, "BattlePetEffectProperties.dbd"@));
        assert(entry_views(m@) =~~= g);
    }
    m.push(("battlepetnpcteammember", "BattlePetNPCTeamMember.dbd"));
    proof {
        g = g.push(("battlepetnpcteammember"@, "BattlePetNPCTeamMember.dbd"@));
        assert(entry_views(m@) =~~= g);
    }
    m.push(("battlepetspecies", "BattlePetSpecies.dbd"));
    proof {
        g = g.push(("battlepetspecies"@, "BattlePetSpecies.dbd"@));
        assert(entry_views(m@) =~~= g);
    }
    m.push(("battlepetspeciesstate", "BattlePetSpeciesState.dbd"));
    proof {
        g = g.push(("battlepetspeciesstate"@, "BattlePetSpeciesState.dbd"@));
        assert(entry_views(m@) =~~= g);
    }
    m.push(("battlepetspeciesxability", "BattlePetSpeciesXAbility.dbd"));
    proof {
        g = g.push(("battlepetspeciesxability"@, "BattlePetSpeciesXAbility.dbd"@));
        assert(entry_views(m@) =~~= g);
    }
    m.push(("battlepetspeciesxcovenant", "BattlePetSpeciesXCovenant.dbd"));
    proof {
        g = g.push(("battlepetspeciesxcovenant"@, "BattlePetSpeciesXCovenant.dbd"@));
        assert(entry_views(m@) =~~= g);
    }
    m.push(("battlepetstate", "BattlePetState.dbd"));
    proof {
        g = g.push(("battlepetstate"@, "BattlePetState.dbd"@));
        assert(entry_views(m@) =~~= g);
    }
    m.push(("battlepetvisual", "BattlePetVisual.dbd"));
    proof {
        g = g.push(("battlepetvisual"@, "BattlePetVisual.dbd"@));
        assert(entry_views(m@) =~~= g);
    }
    m.push(("beameffect", "BeamEffect.dbd"));
    proof {
        g = g.push(("beameffect"@, "BeamEffect.dbd"@));
        assert(entry_views(m@) =~~= g);
    }
    m.push(("beckontrigger", "BeckonTrigger.dbd"));
    proof {
        g = g.push(("beckontrigger"@, "BeckonTrigger.dbd"@));
        assert(entry_views(m@) =~~= g);
    }
    m.push(("bonewindmodifiermodel", "BoneWindModifierModel.dbd"));
    proof {
        g = g.push(("bonewindmodifiermodel"@, "BoneWindModifierModel.dbd"@));
        assert(entry_views(m@) =~~= g);
    }
    m.push(("bonewindmodifiers", "BoneWindModifiers.dbd"));
    proof {
        g = g.push(("bonewindmodifiers"@, "BoneWindModifiers.dbd"@));
        assert(entry_views(m@) =~~= g);
    }
    m.push(("bonusroll", "BonusRoll.dbd"));
    proof {
        g = g.push(("bonusroll"@, "BonusRoll.dbd"@));
        assert(entry_views(m@) =~~= g);
        assert(m@.len() == 120);
    }
    m.push(("bounty", "Bounty.dbd"));
    proof {
        g = g.push(("bounty"@, "Bounty.dbd"@));
        assert(entry_views(m@) =~~= g);
    }
    m.push(("bountyset", "BountySet.dbd"));
    proof {
        g = g.push(("bountyset"@, "BountySet.dbd"@));
        assert(entry_views(m@) =~~= g);
    }
    m.push(("broadcasttext", "BroadcastText.dbd"));
    proof {
        g = g.push(("broadcasttext"@, "BroadcastText.dbd"@));
        assert(entry_views(m@) =~~= g);
    }
    m.push(("broadcasttextsoundstate", "BroadcastTextSoundState.dbd"));
    proof {
        g = g.push(("broadcasttextsoundstate"@, "BroadcastTextSoundState.dbd"@));
        assert(entry_views(m@) =~~= g);
    }
    m.push(("broadcasttextvostate", "BroadcastTextVOState.dbd"));
    proof {
        g = g.push(("broadcasttextvostate"@, "BroadcastTextVOState.dbd"@));
        assert(entry_views(m@) =~~= g);
    }
    m.push(("cameraeffect", "CameraEffect.dbd"));
    proof {
        g = g.push(("cameraeffect"@, "CameraEffect.dbd"@));
        assert(entry_views(m@) =~~= g);
    }
    m.push(("cameraeffectentry", "CameraEffectEntry.dbd"));
    proof {
        g = g.push(("cameraeffectentry"@, "CameraEffectEntry.dbd"@));
        assert(entry_views(m@) =~~= g);
    }
    m.push(("cameramode", "CameraMode.dbd"));
    proof {
        g = g.push(("cameramode"@, "CameraMode.dbd"@));
        assert(entry_views(m@) =~~= g);
    }
    m.push(("camerashakes", "CameraShakes.dbd"));
    proof {
        g = g.push(("camerashakes"@, "CameraShakes.dbd"@));
        assert(entry_views(m@) =~~= g);
    }
    m.push(("campaign", "Campaign.dbd"));
    proof {
        g = g.push(("campaign"@, "Campaign.dbd"@));
        assert(entry_views(m@) =~~= g);
    }
    m.push(("campaignxcondition", "CampaignXCondition.dbd"));
    proof {
        g = g.push(("campaignxcondition"@, "CampaignXCondition.dbd"@));
        assert(entry_views(m@) =~~= g);
    }
    m.push(("campaignxquestline", "CampaignXQuestLine.dbd"));
    proof {
        g = g.push(("campaignxquestline"@, "CampaignXQuestLine.dbd"@));
        assert(entry_views(m@) =~~= g);
    }
    m.push(("castableraidbuffs", "CastableRaidBuffs.dbd"));
    proof {
        g = g.push(("castableraidbuffs"@, "CastableRaidBuffs.dbd"@));
        assert(entry_views(m@) =~~= g);
    }
    m.push(("celestialbody", "CelestialBody.dbd"));
    proof {
        g = g.push(("celestialbody"@, "CelestialBody.dbd"@));
        assert(entry_views(m@) =~~= g);
    }
    m.push(("cfg_categories", "Cfg_Categories.dbd"));
    proof {
        g = g.push(("cfg_categories"@, "Cfg_Categories.dbd"@));
        assert(entry_views(m@) =~~= g);
    }
    m.push(("cfg_configs", "Cfg_Configs.dbd"));
    proof {
        g = g.push(("cfg_configs"@, "Cfg_Configs.dbd"@));
        assert(entry_views(m@) =~~= g);
    }
    m.push(("cfg_gamerules", "Cfg_GameRules.dbd"));
    proof {
        g = g.push(("cfg_gamerules"@, "Cfg_GameRules.dbd"@));
        assert(entry_views(m@) =~~= g);
    }
    m.push(("cfg_languages", "Cfg_Languages.dbd"));
    proof {
        g = g.push(("cfg_languages"@, "Cfg_Languages.dbd"@));
        assert(entry_views(m@) =~~= g);
    }
    m.push(("cfg_regions", "Cfg_Regions.dbd"));
    proof {
        g = g.push(("cfg_regions"@, "Cfg_Regions.dbd"@));
        assert(entry_views(m@) =~~= g);
    }
    m.push(("cfg_timeeventregiongroup", "Cfg_TimeEventRegionGroup.dbd"));
    proof {
        g = g.push(("cfg_timeeventregiongroup"@, "Cfg_TimeEventRegionGroup.dbd"@));
        assert(entry_views(m@) =~~= g);
    }
    m.push(("challengemodeitembonusoverride", "ChallengeModeItemBonusOverride.dbd"));
    proof {
        g = g.push(("challengemodeitembonusoverride"@, "ChallengeModeItemBonusOverride.dbd"@));
        assert(entry_views(m@) =~~= g);
    }
    m.push(("challengemodereward", "ChallengeModeReward.dbd"));
    proof {
        g = g.push(("challengemodereward"@, "ChallengeModeReward.dbd"@));
        assert(entry_views(m@) =~~= g);
    }
    m.push(("challengemodexreward", "ChallengeModeXReward.dbd"));
    proof {
        g = g.push(("challengemodexreward"@, "ChallengeModeXReward.dbd"@));
        assert(entry_views(m@) =~~= g);
    }
    m.push(("charactercreatecameras", "CharacterCreateCameras.dbd"));
    proof {
        g = g.push(("charactercreatecameras"@, "CharacterCreateCameras.dbd"@));
        assert(entry_views(m@) =~~= g);
    }
    m.push(("characterfaceboneset", "CharacterFaceBoneSet.dbd"));
    proof {
        g = g.push(("characterfaceboneset"@, "CharacterFaceBoneSet.dbd"@));
        assert(entry_views(m@) =~~= g);
    }
    m.push(("characterfacialhairstyles", "CharacterFacialHairStyles.dbd"));
    proof {
        g = g.push(("characterfacialhairstyles"@, "CharacterFacialHairStyles.dbd"@));
        assert(entry_views(m@) =~~= g);
    }
    m.push(("characterloadout", "CharacterLoadout.dbd"));
    proof {
        g = g.push(("characterloadout"@, "CharacterLoadout.dbd"@));
        assert(entry_views(m@) =~~= g);
    }
    m.push(("characterloadoutitem", "CharacterLoadoutItem.dbd"));
    proof {
        g = g.push(("characterloadoutitem"@, "CharacterLoadoutItem.dbd"@));
        assert(entry_views(m@) =~~= g);
    }
    m.push(("characterloadoutpet", "CharacterLoadoutPet.dbd"));
    proof {
        g = g.push(("characterloadoutpet"@, "CharacterLoadoutPet.dbd"@));
        assert(entry_views(m@) =~~= g);
    }
    m.push(("characterserviceinfo", "CharacterServiceInfo.dbd"));
    proof {
        g = g.push(("characterserviceinfo"@, "CharacterServiceInfo.dbd"@));
        assert(entry_views(m@) =~~= g);
        assert(m@.len() == 150);
    }
    m.push(("charbaseinfo", "CharBaseInfo.dbd"));
    proof {
        g = g.push(("charbaseinfo"@, "CharBaseInfo.dbd"@));
        assert(entry_views(m@) =~~= g);
    }
    m.push(("charbasesection", "CharBaseSection.dbd"));
    proof {
        g = g.push(("charbasesection"@, "CharBaseSection.dbd"@));
        assert(entry_views(m@) =~~= g);
    }
    m.push(("charcomponenttexturelayouts", "CharComponentTextureLayouts.dbd"));
    proof {
        g = g.push(("charcomponenttexturelayouts"@, "CharComponentTextureLayouts.dbd"@));
        assert(entry_views(m@) =~~= g);
    }
    m.push(("charhairgeosets", "CharHairGeosets.dbd"));
    proof {
        g = g.push(("charhairgeosets"@, "CharHairGeosets.dbd"@));
        assert(entry_views(m@) =~~= g);
    }
    m.push(("charhairtextures", "CharHairTextures.dbd"));
    proof {
        g = g.push(("charhairtextures"@, "CharHairTextures.dbd"@));
        assert(entry_views(m@) =~~= g);
    }
    m.push(("charsectioncondition", "CharSectionCondition.dbd"));
    proof {
        g = g.push(("charsectioncondition"@, "CharSectionCondition.dbd"@));
        assert(entry_views(m@) =~~= g);
    }
    m.push(("charsections", "CharSections.dbd"));
    proof {
        g = g.push(("charsections"@, "CharSections.dbd"@));
        assert(entry_views(m@) =~~= g);
    }
    m.push(("charshipment", "CharShipment.dbd"));
    proof {
        g = g.push(("charshipment"@, "CharShipment.dbd"@));
        assert(entry_views(m@) =~~= g);
    }
    m.push(("charshipmentcontainer", "CharShipmentContainer.dbd"));
    proof {
        g = g.push(("charshipmentcontainer"@, "CharShipmentContainer.dbd"@));
        assert(entry_views(m@) =~~= g);
    }
    m.push(("charstartkit", "CharStartKit.dbd"));
    proof {
        g = g.push(("charstartkit"@, "CharStartKit.dbd"@));
        assert(entry_views(m@) =~~= g);
    }
    m.push(("charstartoutfit", "CharStartOutfit.dbd"));
    proof {
        g = g.push(("charstartoutfit"@, "CharStartOutfit.dbd"@));
        assert(entry_views(m@) =~~= g);
    }
    m.push(("chartexturevariationsv2", "CharTextureVariationsV2.dbd"));
    proof {
        g = g.push(("chartexturevariationsv2"@, "CharTextureVariationsV2.dbd"@));
        assert(entry_views(m@) =~~= g);
    }
    m.push(("chartitles", "CharTitles.dbd"));
    proof {
        g = g.push(("chartitles"@, "CharTitles.dbd"@));
        assert(entry_views(m@) =~~= g);
    }
    m.push(("charvariations", "CharVariations.dbd"));
    proof {
        g = g.push(("charvariations"@, "CharVariations.dbd"@));
        assert(entry_views(m@) =~~= g);
    }
    m.push(("chatchannels", "ChatChannels.dbd"));
    proof {
        g = g.push(("chatchannels"@, "ChatChannels.dbd"@));
        assert(entry_views(m@) =~~= g);
    }
    m.push(("chatprofanity", "ChatProfanity.dbd"));
    proof {
        g = g.push(("chatprofanity"@, "ChatProfanity.dbd"@));
        assert(entry_views(m@) =~~= g);
    }
    m.push(("chrclasses", "ChrClasses.dbd"));
    proof {
        g = g.push(("chrclasses"@, "ChrClasses.dbd"@));
        assert(entry_views(m@) =~~= g);
    }
    m.push(("chrclassesxpowertypes", "ChrClassesXPowerTypes.dbd"));
    proof {
        g = g.push(("chrclassesxpowertypes"@, "ChrClassesXPowerTypes.dbd"@));
        assert(entry_views(m@) =~~= g);
    }
    m.push(("chrclasstitle", "ChrClassTitle.dbd"));
    proof {
        g = g.push(("chrclasstitle"@, "ChrClassTitle.dbd"@));
        assert(entry_views(m@) =~~= g);
    }
    m.push(("chrclassuichrmodelinfo", "ChrClassUIChrModelInfo.dbd"));
    proof {
        g = g.push(("chrclassuichrmodelinfo"@, "ChrClassUIChrModelInfo.dbd"@));
        assert(entry_views(m@) =~~= g);
    }
    m.push(("chrclassuidisplay", "ChrClassUIDisplay.dbd"));
    proof {
        g = g.push(("chrclassuidisplay"@, "ChrClassUIDisplay.dbd"@));
        assert(entry_views(m@) =~~= g);
    }
    m.push(("chrclassvillain", "ChrClassVillain.dbd"));
    proof {
        g = g.push(("chrclassvillain"@, "ChrClassVillain.dbd"@));
        assert(entry_views(m@) =~~= g);
    }
    m.push(("chrcreateclassanimtarget", "ChrCreateClassAnimTarget.dbd"));
    proof {
        g = g.push(("chrcreateclassanimtarget"@, "ChrCreateClassAnimTarget.dbd"@));
        assert(entry_views(m@) =~~= g);
    }
    m.push(("chrcreateclassanimtargetinfo", "ChrCreateClassAnimTargetInfo.dbd"));
    proof {
        g = g.push(("chrcreateclassanimtargetinfo"@, "ChrCreateClassAnimTargetInfo.dbd"@));
        assert(entry_views(m@) =~~= g);
    }
    m.push(("chrcustclientchoiceconversion", "ChrCustClientChoiceConversion.dbd"));
    proof {
        g = g.push(("chrcustclientchoiceconversion"@, "ChrCustClientChoiceConversion.dbd"@));
        assert(entry_views(m@) =~~= g);
    }
    m.push(("chrcustgeocomponentlink", "ChrCustGeoComponentLink.dbd"));
    proof {
        g = g.push(("chrcustgeocomponentlink"@, "ChrCustGeoComponentLink.dbd"@));
        assert(entry_views(m@) =~~= g);
    }
    m.push(("chrcustitemgeomodify", "ChrCustItemGeoModify.dbd"));
    proof {
        g = g.push(("chrcustitemgeomodify"@, "ChrCustItemGeoModify.dbd"@));
        assert(entry_views(m@) =~~= g);
    }
    m.push(("chrcustomization", "ChrCustomization.dbd"));
    proof {
        g = g.push(("chrcustomization"@, "ChrCustomization.dbd"@));
        assert(entry_views(m@) =~~= g);
    }
    m.push(("chrcustomizationboneset", "ChrCustomizationBoneSet.dbd"));
    proof {
        g = g.push(("chrcustomizationboneset"@, "ChrCustomizationBoneSet.dbd"@));
        assert(entry_views(m@) =~~= g);
    }
    m.push(("chrcustomizationcategory", "ChrCustomizationCategory.dbd"));
    proof {
        g = g.push(("chrcustomizationcategory"@, "ChrCustomizationCategory.dbd"@));
        assert(entry_views(m@) =~~= g);
        assert(m@.len() == 180);
    }
    m.push(("chrcustomizationchoice", "ChrCustomizationChoice.dbd"));
    proof {
        g = g.push(("chrcustomizationchoice"@, "ChrCustomizationChoice.dbd"@));
        assert(entry_views(m@) =~~= g);
    }
    m.push(("chrcustomizationcondmodel", "ChrCustomizationCondModel.dbd"));
    proof {
        g = g.push(("chrcustomizationcondmodel"@, "ChrCustomizationCondModel.dbd"@));
        assert(entry_views(m@) =~~= g);
    }
    m.push(("chrcustomizationdisplayinfo", "ChrCustomizationDisplayInfo.dbd"));
    proof {
        g = g.push(("chrcustomizationdisplayinfo"@, "ChrCustomizationDisplayInfo.dbd"@));
        assert(entry_views(m@) =~~= g);
    }
    m.push(("chrcustomizationelement", "ChrCustomizationElement.dbd"));
    proof {
        g = g.push(("chrcustomizationelement"@, "ChrCustomizationElement.dbd"@));
        assert(entry_views(m@) =~~= g);
    }
    m.push(("chrcustomizationgeoset", "ChrCustomizationGeoset.dbd"));
    proof {
        g = g.push(("chrcustomizationgeoset"@, "ChrCustomizationGeoset.dbd"@));
        assert(entry_views(m@) =~~= g);
    }
    m.push(("chrcustomizationglyphpet", "ChrCustomizationGlyphPet.dbd"));
    proof {
        g = g.push(("chrcustomizationglyphpet"@, "ChrCustomizationGlyphPet.dbd"@));
        assert(entry_views(m@) =~~= g);
    }
    m.push(("chrcustomizationmaterial", "ChrCustomizationMaterial.dbd"));
    proof {
        g = g.push(("chrcustomizationmaterial"@, "ChrCustomizationMaterial.dbd"@));
        assert(entry_views(m@) =~~= g);
    }
    m.push(("chrcustomizationoption", "ChrCustomizationOption.dbd"));
    proof {
        g = g.push(("chrcustomizationoption"@, "ChrCustomizationOption.dbd"@));
        assert(entry_views(m@) =~~= g);
    }
    m.push(("chrcustomizationreq", "ChrCustomizationReq.dbd"));
    proof {
        g = g.push(("chrcustomizationreq"@, "ChrCustomizationReq.dbd"@));
        assert(entry_views(m@) =~~= g);
    }
    m.push(("chrcustomizationreqchoice", "ChrCustomizationReqChoice.dbd"));
    proof {
        g = g.push(("chrcustomizationreqchoice"@, "ChrCustomizationReqChoice.dbd"@));
        assert(entry_views(m@) =~~= g);
    }
    m.push(("chrcustomizationskinnedmodel", "ChrCustomizationSkinnedModel.dbd"));
    proof {
        g = g.push(("chrcustomizationskinnedmodel"@, "ChrCustomizationSkinnedModel.dbd"@));
        assert(entry_views(m@) =~~= g);
    }
    m.push(("chrcustomizationvisreq", "ChrCustomizationVisReq.dbd"));
    proof {
        g = g.push(("chrcustomizationvisreq"@, "ChrCustomizationVisReq.dbd"@));
        assert(entry_views(m@) =~~= g);
    }
    m.push(("chrcustomizationvoice", "ChrCustomizationVoice.dbd"));
    proof {
        g = g.push(("chrcustomizationvoice"@, "ChrCustomizationVoice.dbd"@));
        assert(entry_views(m@) =~~= g);
    }
    m.push(("chrmodel", "ChrModel.dbd"));
    proof {
        g = g.push(("chrmodel"@, "ChrModel.dbd"@));
        assert(entry_views(m@) =~~= g);
    }
    m.push(("chrmodelmaterial", "ChrModelMaterial.dbd"));
    proof {
        g = g.push(("chrmodelmaterial"@, "ChrModelMaterial.dbd"@));
        assert(entry_views(m@) =~~= g);
    }
    m.push(("chrmodeltexturelayer", "ChrModelTextureLayer.dbd"));
    proof {
        g = g.push(("chrmodeltexturelayer"@, "ChrModelTextureLayer.dbd"@));
        assert(entry_views(m@) =~~= g);
    }
    m.push(("chrmodeltexturetarget", "ChrModelTextureTarget.dbd"));
    proof {
        g = g.push(("chrmodeltexturetarget"@, "ChrModelTextureTarget.dbd"@));
        assert(entry_views(m@) =~~= g);
    }
    m.push(("chrraceracialability", "ChrRaceRacialAbility.dbd"));
    proof {
        g = g.push(("chrraceracialability"@, "ChrRaceRacialAbility.dbd"@));
        assert(entry_views(m@) =~~= g);
    }
    m.push(("chrraces", "ChrRaces.dbd"));
    proof {
        g = g.push(("chrraces"@, "ChrRaces.dbd"@));
        assert(entry_views(m@) =~~= g);
    }
    m.push(("chrracescreatescreenicon", "ChrRacesCreateScreenIcon.dbd"));
    proof {
        g = g.push(("chrracescreatescreenicon"@, "ChrRacesCreateScreenIcon.dbd"@));
        assert(entry_views(m@) =~~= g);
    }
    m.push(("chrracesping", "ChrRacesPing.dbd"));
    proof {
        g = g.push(("chrracesping"@, "ChrRacesPing.dbd"@));
        assert(entry_views(m@) =~~= g);
    }
    m.push(("chrracexchrmodel", "ChrRaceXChrModel.dbd"));
    proof {
        g = g.push(("chrracexchrmodel"@, "ChrRaceXChrModel.dbd"@));
        assert(entry_views(m@) =~~= g);
    }
    m.push(("chrselectbackgroundcdi", "ChrSelectBackgroundCDI.dbd"));
    proof {
        g = g.push(("chrselectbackgroundcdi"@, "ChrSelectBackgroundCDI.dbd"@));
        assert(entry_views(m@) =~~= g);
    }
    m.push(("chrspecialization", "ChrSpecialization.dbd"));
    proof {
        g = g.push(("chrspecialization"@, "ChrSpecialization.dbd"@));
        assert(entry_views(m@) =~~= g);
    }
    m.push(("chrupgradebucket", "ChrUpgradeBucket.dbd"));
    proof {
        g = g.push(("chrupgradebucket"@, "ChrUpgradeBucket.dbd"@));
        assert(entry_views(m@) =~~= g);
    }
    m.push(("chrupgradebucketspell", "ChrUpgradeBucketSpell.dbd"));
    proof {
        g = g.push(("chrupgradebucketspell"@, "ChrUpgradeBucketSpell.dbd"@));
        assert(entry_views(m@) =~~= g);
    }
    m.push(("chrupgradetier", "ChrUpgradeTier.dbd"));
    proof {
        g = g.push(("chrupgradetier"@, "ChrUpgradeTier.dbd"@));
        assert(entry_views(m@) =~~= g);
    }
    m.push(("cinematic", "Cinematic.dbd"));
    proof {
        g = g.push(("cinematic"@, "Cinematic.dbd"@));
        assert(entry_views(m@) =~~= g);
    }
    m.push(("cinematiccamera", "CinematicCamera.dbd"));
    proof {
        g = g.push(("cinematiccamera"@, "CinematicCamera.dbd"@));
        assert(entry_views(m@) =~~= g);
    }
    m.push(("cinematicsequences", "CinematicSequences.dbd"));
    proof {
        g = g.push(("cinematicsequences"@, "CinematicSequences.dbd"@));
        assert(entry_views(m@) =~~= g);
        assert(m@.len() == 210);
    }
    proof {
        reveal(catalog_data_a);
        assert(g == catalog_data_a());
    }
    m
}

/// One slice of the embedded catalog data; it carries exactly the
/// pairs its specification-level slice states.
fn catalog_entries_b() -> (m: Vec<(&'static str, &'static str)>)
    ensures
        m@.len() == 210,
        entry_views(m@) == catalog_data_b(),
{
    let mut m: Vec<(&'static str, &'static str)> = Vec::new();
    let ghost mut g: Seq<(Seq<char>, Seq<char>)> = Seq::empty();
    proof {
        assert(entry_views(m@) =~~= g);
    }
    m.push(("cinematicsubtitle", "CinematicSubtitle.dbd"));
    proof {
        g = g.push(("cinematicsubtitle"@, "CinematicSubtitle.dbd"@));
        assert(entry_views(m@) =~~= g);
    }
    m.push(("clientsceneeffect", "ClientSceneEffect.dbd"));
    proof {
        g = g.push(("clientsceneeffect"@, "ClientSceneEffect.dbd"@));
        assert(entry_views(m@) =~~= g);
    }
    m.push(("cloakdampening", "CloakDampening.dbd"));
    proof {
        g = g.push(("cloakdampening"@, "CloakDampening.dbd"@));
        assert(entry_views(m@) =~~= g);
    }
    m.push(("cloneeffect", "CloneEffect.dbd"));
    proof {
        g = g.push(("cloneeffect"@, "CloneEffect.dbd"@));
        assert(entry_views(m@) =~~= g);
    }
    m.push(("collectablesourceencounter", "CollectableSourceEncounter.dbd"));
    proof {
        g = g.push(("collectablesourceencounter"@, "CollectableSourceEncounter.dbd"@));
        assert(entry_views(m@) =~~= g);
    }
    m.push(("collectablesourceencountersparse", "CollectableSourceEncounterSparse.dbd"));
    proof {
        g = g.push(("collectablesourceencountersparse"@, "CollectableSourceEncounterSparse.dbd"@));
        assert(entry_views(m@) =~~= g);
    }
    m.push(("collectablesourceinfo", "CollectableSourceInfo.dbd"));
    proof {
        g = g.push(("collectablesourceinfo"@, "CollectableSourceInfo.dbd"@));
        assert(entry_views(m@) =~~= g);
    }
    m.push(("collectablesourcequest", "CollectableSourceQuest.dbd"));
    proof {
        g = g.push(("collectablesourcequest"@, "CollectableSourceQuest.dbd"@));
        assert(entry_views(m@) =~~= g);
    }
    m.push(("collectablesourcequestsparse", "CollectableSourceQuestSparse.dbd"));
    proof {
        g = g.push(("collectablesourcequestsparse"@, "CollectableSourceQuestSparse.dbd"@));
        assert(entry_views(m@) =~~= g);
    }
    m.push(("collectablesourcevendor", "CollectableSourceVendor.dbd"));
    proof {
        g = g.push(("collectablesourcevendor"@, "CollectableSourceVendor.dbd"@));
        assert(entry_views(m@) =~~= g);
    }
    m.push(("collectablesourcevendorsparse", "CollectableSourceVendorSparse.dbd"));
    proof {
        g = g.push(("collectablesourcevendorsparse"@, "CollectableSourceVendorSparse.dbd"@));
        assert(entry_views(m@) =~~= g);
    }
    m.push(("colorbanding", "ColorBanding.dbd"));
    proof {
        g = g.push(("colorbanding"@, "ColorBanding.dbd"@));
        assert(entry_views(m@) =~~= g);
    }
    m.push(("combatcondition", "CombatCondition.dbd"));
    proof {
        g = g.push(("combatcondition"@, "CombatCondition.dbd"@));
        assert(entry_views(m@) =~~= g);
    }
    m.push(("commentatorindirectspell", "CommentatorIndirectSpell.dbd"));
    proof {
        g = g.push(("commentatorindirectspell"@, "CommentatorIndirectSpell.dbd"@));
        assert(entry_views(m@) =~~= g);
    }
    m.push(("commentatorstartlocation", "CommentatorStartLocation.dbd"));
    proof {
        g = g.push(("commentatorstartlocation"@, "CommentatorStartLocation.dbd"@));
        assert(entry_views(m@) =~~= g);
    }
    m.push(("commentatortrackedcooldown", "CommentatorTrackedCooldown.dbd"));
    proof {
        g = g.push(("commentatortrackedcooldown"@, "CommentatorTrackedCooldown.dbd"@));
        assert(entry_views(m@) =~~= g);
    }
    m.push(("componentmodelfiledata", "ComponentModelFileData.dbd"));
    proof {
        g = g.push(("componentmodelfiledata"@, "ComponentModelFileData.dbd"@));
        assert(entry_views(m@) =~~= g);
    }
    m.push(("componenttexturefiledata", "ComponentTextureFileData.dbd"));
    proof {
        g = g.push(("componenttexturefiledata"@, "ComponentTextureFileData.dbd"@));
        assert(entry_views(m@) =~~= g);
    }
    m.push(("conditionalchrmodel", "ConditionalChrModel.dbd"));
    proof {
        g = g.push(("conditionalchrmodel"@, "ConditionalChrModel.dbd"@));
        assert(entry_views(m@) =~~= g);
    }
    m.push(("conditionalcontenttuning", "ConditionalContentTuning.dbd"));
    proof {
        g = g.push(("conditionalcontenttuning"@, "ConditionalContentTuning.dbd"@));
        assert(entry_views(m@) =~~= g);
    }
    m.push(("conditionalcreaturemodeldata", "ConditionalCreatureModelData.dbd"));
    proof {
        g = g.push(("conditionalcreaturemodeldata"@, "ConditionalCreatureModelData.dbd"@));
        assert(entry_views(m@) =~~= g);
    }
    m.push(("conditionalitemappearance", "ConditionalItemAppearance.dbd"));
    proof {
        g = g.push(("conditionalitemappearance"@, "ConditionalItemAppearance.dbd"@));
        assert(entry_views(m@) =~~= g);
    }
    m.push(("configurationwarning", "ConfigurationWarning.dbd"));
    proof {
        g = g.push(("configurationwarning"@, "ConfigurationWarning.dbd"@));
        assert(entry_views(m@) =~~= g);
    }
    m.push(("consolescripts", "ConsoleScripts.dbd"));
    proof {
        g = g.push(("consolescripts"@, "ConsoleScripts.dbd"@));
        assert(entry_views(m@) =~~= g);
    }
    m.push(("contentpush", "ContentPush.dbd"));
    proof {
        g = g.push(("contentpush"@, "ContentPush.dbd"@));
        assert(entry_views(m@) =~~= g);
    }
    m.push(("contentrestrictionrule", "ContentRestrictionRule.dbd"));
    proof {
        g = g.push(("contentrestrictionrule"@, "ContentRestrictionRule.dbd"@));
        assert(entry_views(m@) =~~= g);
    }
    m.push(("contentrestrictionruleset", "ContentRestrictionRuleSet.dbd"));
    proof {
        g = g.push(("contentrestrictionruleset"@, "ContentRestrictionRuleSet.dbd"@));
        assert(entry_views(m@) =~~= g);
    }
    m.push(("contenttuning", "ContentTuning.dbd"));
    proof {
        g = g.push(("contenttuning"@, "ContentTuning.dbd"@));
        assert(entry_views(m@) =~~= g);
    }
    m.push(("contenttuningdescription", "ContentTuningDescription.dbd"));
    proof {
        g = g.push(("contenttuningdescription"@, "ContentTuningDescription.dbd"@));
        assert(entry_views(m@) =~~= g);
    }
    m.push(("contenttuningxdifficulty", "ContentTuningXDifficulty.dbd"));
    proof {
        g = g.push(("contenttuningxdifficulty"@, "ContentTuningXDifficulty.dbd"@));
        assert(entry_views(m@) =~~= g);
        assert(m@.len() == 30);
    }
    m.push(("contenttuningxexpected", "ContentTuningXExpected.dbd"));
    proof {
        g = g.push(("contenttuningxexpected"@, "ContentTuningXExpected.dbd"@));
        assert(entry_views(m@) =~~= g);
    }
    m.push(("contenttuningxlabel", "ContentTuningXLabel.dbd"));
    proof {
        g = g.push(("contenttuningxlabel"@, "ContentTuningXLabel.dbd"@));
        assert(entry_views(m@) =~~= g);
    }
    m.push(("contribution", "Contribution.dbd"));
    proof {
        g = g.push(("contribution"@, "Contribution.dbd"@));
        assert(entry_views(m@) =~~= g);
    }
    m.push(("contributionstyle", "ContributionStyle.dbd"));
    proof {
        g = g.push(("contributionstyle"@, "ContributionStyle.dbd"@));
        assert(entry_views(m@) =~~= g);
    }
    m.push(("contributionstylecontainer", "ContributionStyleContainer.dbd"));
    proof {
        g = g.push(("contributionstylecontainer"@, "ContributionStyleContainer.dbd"@));
        assert(entry_views(m@) =~~= g);
    }
    m.push(("conversationline", "ConversationLine.dbd"));
    proof {
        g = g.push(("conversationline"@, "ConversationLine.dbd"@));
        assert(entry_views(m@) =~~= g);
    }
    m.push(("cooldownset", "CooldownSet.dbd"));
    proof {
        g = g.push(("cooldownset"@, "CooldownSet.dbd"@));
        assert(entry_views(m@) =~~= g);
    }
    m.push(("cooldownsetlinkedspell", "CooldownSetLinkedSpell.dbd"));
    proof {
        g = g.push(("cooldownsetlinkedspell"@, "CooldownSetLinkedSpell.dbd"@));
        assert(entry_views(m@) =~~= g);
    }
    m.push(("cooldownsetspell", "CooldownSetSpell.dbd"));
    proof {
        g = g.push(("cooldownsetspell"@, "CooldownSetSpell.dbd"@));
        assert(entry_views(m@) =~~= g);
    }
    m.push(("corruptioneffects", "CorruptionEffects.dbd"));
    proof {
        g = g.push(("corruptioneffects"@, "CorruptionEffects.dbd"@));
        assert(entry_views(m@) =~~= g);
    }
    m.push(("covenant", "Covenant.dbd"));
    proof {
        g = g.push(("covenant"@, "Covenant.dbd"@));
        assert(entry_views(m@) =~~= g);
    }
    m.push(("craftingdata", "CraftingData.dbd"));
    proof {
        g = g.push(("craftingdata"@, "CraftingData.dbd"@));
        assert(entry_views(m@) =~~= g);
    }
    m.push(("craftingdataenchantquality", "CraftingDataEnchantQuality.dbd"));
    proof {
        g = g.push(("craftingdataenchantquality"@, "CraftingDataEnchantQuality.dbd"@));
        assert(entry_views(m@) =~~= g);
    }
    m.push(("craftingdataitemquality", "CraftingDataItemQuality.dbd"));
    proof {
        g = g.push(("craftingdataitemquality"@, "CraftingDataItemQuality.dbd"@));
        assert(entry_views(m@) =~~= g);
    }
    m.push(("craftingdifficulty", "CraftingDifficulty.dbd"));
    proof {
        g = g.push(("craftingdifficulty"@, "CraftingDifficulty.dbd"@));
        assert(entry_views(m@) =~~= g);
    }
    m.push(("craftingdifficultyquality", "CraftingDifficultyQuality.dbd"));
    proof {
        g = g.push(("craftingdifficultyquality"@, "CraftingDifficultyQuality.dbd"@));
        assert(entry_views(m@) =~~= g);
    }
    m.push(("craftingitemquality", "CraftingItemQuality.dbd"));
    proof {
        g = g.push(("craftingitemquality"@, "CraftingItemQuality.dbd"@));
        assert(entry_views(m@) =~~= g);
    }
    m.push(("craftingorder", "CraftingOrder.dbd"));
    proof {
        g = g.push(("craftingorder"@, "CraftingOrder.dbd"@));
        assert(entry_views(m@) =~~= g);
    }
    m.push(("craftingorderhouse", "CraftingOrderHouse.dbd"));
    proof {
        g = g.push(("craftingorderhouse"@, "CraftingOrderHouse.dbd"@));
        assert(entry_views(m@) =~~= g);
    }
    m.push(("craftingorderxlabel", "CraftingOrderXLabel.dbd"));
    proof {
        g = g.push(("craftingorderxlabel"@, "CraftingOrderXLabel.dbd"@));
        assert(entry_views(m@) =~~= g);
    }
    m.push(("craftingquality", "CraftingQuality.dbd"));
    proof {
        g = g.push(("craftingquality"@, "CraftingQuality.dbd"@));
        assert(entry_views(m@) =~~= g);
    }
    m.push(("craftingreagenteffect", "CraftingReagentEffect.dbd"));
    proof {
        g = g.push(("craftingreagenteffect"@, "CraftingReagentEffect.dbd"@));
        assert(entry_views(m@) =~~= g);
    }
    m.push(("craftingreagentquality", "CraftingReagentQuality.dbd"));
    proof {
        g = g.push(("craftingreagentquality"@, "CraftingReagentQuality.dbd"@));
        assert(entry_views(m@) =~~= g);
    }
    m.push(("craftingreagentrequirement", "CraftingReagentRequirement.dbd"));
    proof {
        g = g.push(("craftingreagentrequirement"@, "CraftingReagentRequirement.dbd"@));
        assert(entry_views(m@) =~~= g);
    }
    m.push(("creature", "Creature.dbd"));
    proof {
        g = g.push(("creature"@, "Creature.dbd"@));
        assert(entry_views(m@) =~~= g);
    }
    m.push(("creaturedifficulty", "CreatureDifficulty.dbd"));
    proof {
        g = g.push(("creaturedifficulty"@, "CreatureDifficulty.dbd"@));
        assert(entry_views(m@) =~~= g);
    }
    m.push(("creaturedifficultytreasure", "CreatureDifficultyTreasure.dbd"));
    proof {
        g = g.push(("creaturedifficultytreasure"@, "CreatureDifficultyTreasure.dbd"@));
        assert(entry_views(m@) =~~= g);
    }
    m.push(("creaturedisplayinfo", "CreatureDisplayInfo.dbd"));
    proof {
        g = g.push(("creaturedisplayinfo"@, "CreatureDisplayInfo.dbd"@));
        assert(entry_views(m@) =~~= g);
    }
    m.push(("creaturedisplayinfocond", "CreatureDisplayInfoCond.dbd"));
    proof {
        g = g.push(("creaturedisplayinfocond"@, "CreatureDisplayInfoCond.dbd"@));
        assert(entry_views(m@) =~~= g);
    }
    m.push(("creaturedisplayinfocondxchoice", "CreatureDisplayInfoCondXChoice.dbd"));
    proof {
        g = g.push(("creaturedisplayinfocondxchoice"@, "CreatureDisplayInfoCondXChoice.dbd"@));
        assert(entry_views(m@) =~~= g);
        assert(m@.len() == 60);
    }
    m.push(("creaturedisplayinfoevt", "CreatureDisplayInfoEvt.dbd"));
    proof {
        g = g.push(("creaturedisplayinfoevt"@, "CreatureDisplayInfoEvt.dbd"@));
        assert(entry_views(m@) =~~= g);
    }
    m.push(("creaturedisplayinfogeosetdata", "CreatureDisplayInfoGeosetData.dbd"));
    proof {
        g = g.push(("creaturedisplayinfogeosetdata"@, "CreatureDisplayInfoGeosetData.dbd"@));
        assert(entry_views(m@) =~~= g);
    }
    m.push(("creaturedisplayinfooption", "CreatureDisplayInfoOption.dbd"));
    proof {
        g = g.push(("creaturedisplayinfooption"@, "CreatureDisplayInfoOption.dbd"@));
        assert(entry_views(m@) =~~= g);
    }
    m.push(("creaturedisplayinfotrn", "CreatureDisplayInfoTrn.dbd"));
    proof {
        g = g.push(("creaturedisplayinfotrn"@, "CreatureDisplayInfoTrn.dbd"@));
        assert(entry_views(m@) =~~= g);
    }
    m.push(("creaturedisplayxuimodelscene", "CreatureDisplayXUIModelScene.dbd"));
    proof {
        g = g.push(("creaturedisplayxuimodelscene"@, "CreatureDisplayXUIModelScene.dbd"@));
        assert(entry_views(m@) =~~= g);
    }
    m.push(("creaturedispxuicamera", "CreatureDispXUiCamera.dbd"));
    proof {
        g = g.push(("creaturedispxuicamera"@, "CreatureDispXUiCamera.dbd"@));
        assert(entry_views(m@) =~~= g);
    }
    m.push(("creaturefamily", "CreatureFamily.dbd"));
    proof {
        g = g.push(("creaturefamily"@, "CreatureFamily.dbd"@));
        assert(entry_views(m@) =~~= g);
    }
    m.push(("creaturefamilyxuimodelscene", "CreatureFamilyXUIModelScene.dbd"));
    proof {
        g = g.push(("creaturefamilyxuimodelscene"@, "CreatureFamilyXUIModelScene.dbd"@));
        assert(entry_views(m@) =~~= g);
    }
    m.push(("creatureimmunities", "CreatureImmunities.dbd"));
    proof {
        g = g.push(("creatureimmunities"@, "CreatureImmunities.dbd"@));
        assert(entry_views(m@) =~~= g);
    }
    m.push(("creaturelabel", "CreatureLabel.dbd"));
    proof {
        g = g.push(("creaturelabel"@, "CreatureLabel.dbd"@));
        assert(entry_views(m@) =~~= g);
    }
    m.push(("creaturemodeldata", "CreatureModelData.dbd"));
    proof {
        g = g.push(("creaturemodeldata"@, "CreatureModelData.dbd"@));
        assert(entry_views(m@) =~~= g);
    }
    m.push(("creaturemovementinfo", "CreatureMovementInfo.dbd"));
    proof {
        g = g.push(("creaturemovementinfo"@, "CreatureMovementInfo.dbd"@));
        assert(entry_views(m@) =~~= g);
    }
    m.push(("creaturesounddata", "CreatureSoundData.dbd"));
    proof {
        g = g.push(("creaturesounddata"@, "CreatureSoundData.dbd"@));
        assert(entry_views(m@) =~~= g);
    }
    m.push(("creaturesoundfidget", "CreatureSoundFidget.dbd"));
    proof {
        g = g.push(("creaturesoundfidget"@, "CreatureSoundFidget.dbd"@));
        assert(entry_views(m@) =~~= g);
    }
    m.push(("creaturespelldata", "CreatureSpellData.dbd"));
    proof {
        g = g.push(("creaturespelldata"@, "CreatureSpellData.dbd"@));
        assert(entry_views(m@) =~~= g);
    }
    m.push(("creaturetype", "CreatureType.dbd"));
    proof {
        g = g.push(("creaturetype"@, "CreatureType.dbd"@));
        assert(entry_views(m@) =~~= g);
    }
    m.push(("creaturexdisplayinfo", "CreatureXDisplayInfo.dbd"));
    proof {
        g = g.push(("creaturexdisplayinfo"@, "CreatureXDisplayInfo.dbd"@));
        assert(entry_views(m@) =~~= g);
    }
    m.push(("creaturexuiwidgetset", "CreatureXUiWidgetSet.dbd"));
    proof {
        g = g.push(("creaturexuiwidgetset"@, "CreatureXUiWidgetSet.dbd"@));
        assert(entry_views(m@) =~~= g);
    }
    m.push(("criteria", "Criteria.dbd"));
    proof {
        g = g.push(("criteria"@, "Criteria.dbd"@));
        assert(entry_views(m@) =~~= g);
    }
    m.push(("criteriatree", "CriteriaTree.dbd"));
    proof {
        g = g.push(("criteriatree"@, "CriteriaTree.dbd"@));
        assert(entry_views(m@) =~~= g);
    }
    m.push(("criteriatreexeffect", "CriteriaTreeXEffect.dbd"));
    proof {
        g = g.push(("criteriatreexeffect"@, "CriteriaTreeXEffect.dbd"@));
        assert(entry_views(m@) =~~= g);
    }
    m.push(("currencycategory", "CurrencyCategory.dbd"));
    proof {
        g = g.push(("currencycategory"@, "CurrencyCategory.dbd"@));
        assert(entry_views(m@) =~~= g);
    }
    m.push(("currencycontainer", "CurrencyContainer.dbd"));
    proof {
        g = g.push(("currencycontainer"@, "CurrencyContainer.dbd"@));
        assert(entry_views(m@) =~~= g);
    }
    m.push(("currencysource", "CurrencySource.dbd"));
    proof {
        g = g.push(("currencysource"@, "CurrencySource.dbd"@));
        assert(entry_views(m@) =~~= g);
    }
    m.push(("currencytypes", "CurrencyTypes.dbd"));
    proof {
        g = g.push(("currencytypes"@, "CurrencyTypes.dbd"@));
        assert(entry_views(m@) =~~= g);
    }
    m.push(("curve", "Curve.dbd"));
    proof {
        g = g.push(("curve"@, "Curve.dbd"@));
        assert(entry_views(m@) =~~= g);
    }
    m.push(("curvepoint", "CurvePoint.dbd"));
    proof {
        g = g.push(("curvepoint"@, "CurvePoint.dbd"@));
        assert(entry_views(m@) =~~= g);
    }
    m.push(("dancemoves", "DanceMoves.dbd"));
    proof {
        g = g.push(("dancemoves"@, "DanceMoves.dbd"@));
        assert(entry_views(m@) =~~= g);
    }
    m.push(("deaththudlookups", "DeathThudLookups.dbd"));
    proof {
        g = g.push(("deaththudlookups"@, "DeathThudLookups.dbd"@));
        assert(entry_views(m@) =~~= g);
    }
    m.push(("decalproperties", "DecalProperties.dbd"));
    proof {
        g = g.push(("decalproperties"@, "DecalProperties.dbd"@));
        assert(entry_views(m@) =~~= g);
        assert(m@.len() == 90);
    }
    m.push(("declinedword", "DeclinedWord.dbd"));
    proof {
        g = g.push(("declinedword"@, "DeclinedWord.dbd"@));
        assert(entry_views(m@) =~~= g);
    }
    m.push(("declinedwordcases", "DeclinedWordCases.dbd"));
    proof {
        g = g.push(("declinedwordcases"@, "DeclinedWordCases.dbd"@));
        assert(entry_views(m@) =~~= g);
    }
    m.push(("delvesseasonxspell", "DelvesSeasonXSpell.dbd"));
    proof {
        g = g.push(("delvesseasonxspell"@, "DelvesSeasonXSpell.dbd"@));
        assert(entry_views(m@) =~~= g);
    }
    m.push(("destructiblemodeldata", "DestructibleModelData.dbd"));
    proof {
        g = g.push(("destructiblemodeldata"@, "DestructibleModelData.dbd"@));
        assert(entry_views(m@) =~~= g);
    }
    m.push(("deviceblacklist", "DeviceBlacklist.dbd"));
    proof {
        g = g.push(("deviceblacklist"@, "DeviceBlacklist.dbd"@));
        assert(entry_views(m@) =~~= g);
    }
    m.push(("devicedefaultsettings", "DeviceDefaultSettings.dbd"));
    proof {
        g = g.push(("devicedefaultsettings"@, "DeviceDefaultSettings.dbd"@));
        assert(entry_views(m@) =~~= g);
    }
    m.push(("difficulty", "Difficulty.dbd"));
    proof {
        g = g.push(("difficulty"@, "Difficulty.dbd"@));
        assert(entry_views(m@) =~~= g);
    }
    m.push(("displayseason", "DisplaySeason.dbd"));
    proof {
        g = g.push(("displayseason"@, "DisplaySeason.dbd"@));
        assert(entry_views(m@) =~~= g);
    }
    m.push(("dissolveeffect", "DissolveEffect.dbd"));
    proof {
        g = g.push(("dissolveeffect"@, "DissolveEffect.dbd"@));
        assert(entry_views(m@) =~~= g);
    }
    m.push(("drivecapability", "DriveCapability.dbd"));
    proof {
        g = g.push(("drivecapability"@, "DriveCapability.dbd"@));
        assert(entry_views(m@) =~~= g);
    }
    m.push(("drivecapabilitytier", "DriveCapabilityTier.dbd"));
    proof {
        g = g.push(("drivecapabilitytier"@, "DriveCapabilityTier.dbd"@));
        assert(entry_views(m@) =~~= g);
    }
    m.push(("driverblacklist", "DriverBlacklist.dbd"));
    proof {
        g = g.push(("driverblacklist"@, "DriverBlacklist.dbd"@));
        assert(entry_views(m@) =~~= g);
    }
    m.push(("dungeonencounter", "DungeonEncounter.dbd"));
    proof {
        g = g.push(("dungeonencounter"@, "DungeonEncounter.dbd"@));
        assert(entry_views(m@) =~~= g);
    }
    m.push(("dungeonmap", "DungeonMap.dbd"));
    proof {
        g = g.push(("dungeonmap"@, "DungeonMap.dbd"@));
        assert(entry_views(m@) =~~= g);
    }
    m.push(("dungeonmapchunk", "DungeonMapChunk.dbd"));
    proof {
        g = g.push(("dungeonmapchunk"@, "DungeonMapChunk.dbd"@));
        assert(entry_views(m@) =~~= g);
    }
    m.push(("durabilitycosts", "DurabilityCosts.dbd"));
    proof {
        g = g.push(("durabilitycosts"@, "DurabilityCosts.dbd"@));
        assert(entry_views(m@) =~~= g);
    }
    m.push(("durabilityquality", "DurabilityQuality.dbd"));
    proof {
        g = g.push(("durabilityquality"@, "DurabilityQuality.dbd"@));
        assert(entry_views(m@) =~~= g);
    }
    m.push(("edgegloweffect", "EdgeGlowEffect.dbd"));
    proof {
        g = g.push(("edgegloweffect"@, "EdgeGlowEffect.dbd"@));
        assert(entry_views(m@) =~~= g);
    }
    m.push(("emotes", "Emotes.dbd"));
    proof {
        g = g.push(("emotes"@, "Emotes.dbd"@));
        assert(entry_views(m@) =~~= g);
    }
    m.push(("emotestext", "EmotesText.dbd"));
    proof {
        g = g.push(("emotestext"@, "EmotesText.dbd"@));
        assert(entry_views(m@) =~~= g);
    }
    m.push(("emotestextdata", "EmotesTextData.dbd"));
    proof {
        g = g.push(("emotestextdata"@, "EmotesTextData.dbd"@));
        assert(entry_views(m@) =~~= g);
    }
    m.push(("emotestextsound", "EmotesTextSound.dbd"));
    proof {
        g = g.push(("emotestextsound"@, "EmotesTextSound.dbd"@));
        assert(entry_views(m@) =~~= g);
    }
    m.push(("enumeratedstring", "EnumeratedString.dbd"));
    proof {
        g = g.push(("enumeratedstring"@, "EnumeratedString.dbd"@));
        assert(entry_views(m@) =~~= g);
    }
    m.push(("environmentaldamage", "EnvironmentalDamage.dbd"));
    proof {
        g = g.push(("environmentaldamage"@, "EnvironmentalDamage.dbd"@));
        assert(entry_views(m@) =~~= g);
    }
    m.push(("exhaustion", "Exhaustion.dbd"));
    proof {
        g = g.push(("exhaustion"@, "Exhaustion.dbd"@));
        assert(entry_views(m@) =~~= g);
    }
    m.push(("expectedstat", "ExpectedStat.dbd"));
    proof {
        g = g.push(("expectedstat"@, "ExpectedStat.dbd"@));
        assert(entry_views(m@) =~~= g);
    }
    m.push(("expectedstatmod", "ExpectedStatMod.dbd"));
    proof {
        g = g.push(("expectedstatmod"@, "ExpectedStatMod.dbd"@));
        assert(entry_views(m@) =~~= g);
    }
    m.push(("extraabilityinfo", "ExtraAbilityInfo.dbd"));
    proof {
        g = g.push(("extraabilityinfo"@, "ExtraAbilityInfo.dbd"@));
        assert(entry_views(m@) =~~= g);
    }
    m.push(("faction", "Faction.dbd"));
    proof {
        g = g.push(("faction"@, "Faction.dbd"@));
        assert(entry_views(m@) =~~= g);
    }
    m.push(("factiongroup", "FactionGroup.dbd"));
    proof {
        g = g.push(("factiongroup"@, "FactionGroup.dbd"@));
        assert(entry_views(m@) =~~= g);
        assert(m@.len() == 120);
    }
    m.push(("factiontemplate", "FactionTemplate.dbd"));
    proof {
        g = g.push(("factiontemplate"@, "FactionTemplate.dbd"@));
        assert(entry_views(m@) =~~= g);
    }
    m.push(("filedata", "FileData.dbd"));
    proof {
        g = g.push(("filedata"@, "FileData.dbd"@));
        assert(entry_views(m@) =~~= g);
    }
    m.push(("filedatacomplete", "FileDataComplete.dbd"));
    proof {
        g = g.push(("filedatacomplete"@, "FileDataComplete.dbd"@));
        assert(entry_views(m@) =~~= g);
    }
    m.push(("filepaths", "FilePaths.dbd"));
    proof {
        g = g.push(("filepaths"@, "FilePaths.dbd"@));
        assert(entry_views(m@) =~~= g);
    }
    m.push(("flightcapabilityxglideevent", "FlightCapabilityXGlideEvent.dbd"));
    proof {
        g = g.push(("flightcapabilityxglideevent"@, "FlightCapabilityXGlideEvent.dbd"@));
        assert(entry_views(m@) =~~= g);
    }
    m.push(("footprinttextures", "FootprintTextures.dbd"));
    proof {
        g = g.push(("footprinttextures"@, "FootprintTextures.dbd"@));
        assert(entry_views(m@) =~~= g);
    }
    m.push(("footstepterrainlookup", "FootstepTerrainLookup.dbd"));
    proof {
        g = g.push(("footstepterrainlookup"@, "FootstepTerrainLookup.dbd"@));
        assert(entry_views(m@) =~~= g);
    }
    m.push(("friendshiprepreaction", "FriendshipRepReaction.dbd"));
    proof {
        g = g.push(("friendshiprepreaction"@, "FriendshipRepReaction.dbd"@));
        assert(entry_views(m@) =~~= g);
    }
    m.push(("friendshipreputation", "FriendshipReputation.dbd"));
    proof {
        g = g.push(("friendshipreputation"@, "FriendshipReputation.dbd"@));
        assert(entry_views(m@) =~~= g);
    }
    m.push(("fullscreeneffect", "FullScreenEffect.dbd"));
    proof {
        g = g.push(("fullscreeneffect"@, "FullScreenEffect.dbd"@));
        assert(entry_views(m@) =~~= g);
    }
    m.push(("gameclockdebug", "GameClockDebug.dbd"));
    proof {
        g = g.push(("gameclockdebug"@, "GameClockDebug.dbd"@));
        assert(entry_views(m@) =~~= g);
    }
    m.push(("gamemode", "GameMode.dbd"));
    proof {
        g = g.push(("gamemode"@, "GameMode.dbd"@));
        assert(entry_views(m@) =~~= g);
    }
    m.push(("gameobjectanimgroupmember", "GameObjectAnimGroupMember.dbd"));
    proof {
        g = g.push(("gameobjectanimgroupmember"@, "GameObjectAnimGroupMember.dbd"@));
        assert(entry_views(m@) =~~= g);
    }
    m.push(("gameobjectartkit", "GameObjectArtKit.dbd"));
    proof {
        g = g.push(("gameobjectartkit"@, "GameObjectArtKit.dbd"@));
        assert(entry_views(m@) =~~= g);
    }
    m.push(("gameobjectdiffanimmap", "GameObjectDiffAnimMap.dbd"));
    proof {
        g = g.push(("gameobjectdiffanimmap"@, "GameObjectDiffAnimMap.dbd"@));
        assert(entry_views(m@) =~~= g);
    }
    m.push(("gameobjectdisplaycondition", "GameObjectDisplayCondition.dbd"));
    proof {
        g = g.push(("gameobjectdisplaycondition"@, "GameObjectDisplayCondition.dbd"@));
        assert(entry_views(m@) =~~= g);
    }
    m.push(("gameobjectdisplayinfo", "GameObjectDisplayInfo.dbd"));
    proof {
        g = g.push(("gameobjectdisplayinfo"@, "GameObjectDisplayInfo.dbd"@));
        assert(entry_views(m@) =~~= g);
    }
    m.push(("gameobjectdisplayinfoxsoundkit", "GameObjectDisplayInfoXSoundKit.dbd"));
    proof {
        g = g.push(("gameobjectdisplayinfoxsoundkit"@, "GameObjectDisplayInfoXSoundKit.dbd"@));
        assert(entry_views(m@) =~~= g);
    }
    m.push(("gameobjectlabel", "GameObjectLabel.dbd"));
    proof {
        g = g.push(("gameobjectlabel"@, "GameObjectLabel.dbd"@));
        assert(entry_views(m@) =~~= g);
    }
    m.push(("gameobjectsclient", "GameObjectsClient.dbd"));
    proof {
        g = g.push(("gameobjectsclient"@, "GameObjectsClient.dbd"@));
        assert(entry_views(m@) =~~= g);
    }
    m.push(("gameparameter", "GameParameter.dbd"));
    proof {
        g = g.push(("gameparameter"@, "GameParameter.dbd"@));
        assert(entry_views(m@) =~~= g);
    }
    m.push(("gametables", "GameTables.dbd"));
    proof {
        g = g.push(("gametables"@, "GameTables.dbd"@));
        assert(entry_views(m@) =~~= g);
    }
    m.push(("gametips", "GameTips.dbd"));
    proof {
        g = g.push(("gametips"@, "GameTips.dbd"@));
        assert(entry_views(m@) =~~= g);
    }
    m.push(("garrability", "GarrAbility.dbd"));
    proof {
        g = g.push(("garrability"@, "GarrAbility.dbd"@));
        assert(entry_views(m@) =~~= g);
    }
    m.push(("garrabilitycategory", "GarrAbilityCategory.dbd"));
    proof {
        g = g.push(("garrabilitycategory"@, "GarrAbilityCategory.dbd"@));
        assert(entry_views(m@) =~~= g);
    }
    m.push(("garrabilityeffect", "GarrAbilityEffect.dbd"));
    proof {
        g = g.push(("garrabilityeffect"@, "GarrAbilityEffect.dbd"@));
        assert(entry_views(m@) =~~= g);
    }
    m.push(("garrautocombatant", "GarrAutoCombatant.dbd"));
    proof {
        g = g.push(("garrautocombatant"@, "GarrAutoCombatant.dbd"@));
        assert(entry_views(m@) =~~= g);
    }
    m.push(("garrautospell", "GarrAutoSpell.dbd"));
    proof {
        g = g.push(("garrautospell"@, "GarrAutoSpell.dbd"@));
        assert(entry_views(m@) =~~= g);
    }
    m.push(("garrautospelleffect", "GarrAutoSpellEffect.dbd"));
    proof {
        g = g.push(("garrautospelleffect"@, "GarrAutoSpellEffect.dbd"@));
        assert(entry_views(m@) =~~= g);
    }
    m.push(("garrbuilding", "GarrBuilding.dbd"));
    proof {
        g = g.push(("garrbuilding"@, "GarrBuilding.dbd"@));
        assert(entry_views(m@) =~~= g);
        assert(m@.len() == 150);
    }
    m.push(("garrbuildingdoodadset", "GarrBuildingDoodadSet.dbd"));
    proof {
        g = g.push(("garrbuildingdoodadset"@, "GarrBuildingDoodadSet.dbd"@));
        assert(entry_views(m@) =~~= g);
    }
    m.push(("garrbuildingplotinst", "GarrBuildingPlotInst.dbd"));
    proof {
        g = g.push(("garrbuildingplotinst"@, "GarrBuildingPlotInst.dbd"@));
        assert(entry_views(m@) =~~= g);
    }
    m.push(("garrclassspec", "GarrClassSpec.dbd"));
    proof {
        g = g.push(("garrclassspec"@, "GarrClassSpec.dbd"@));
        assert(entry_views(m@) =~~= g);
    }
    m.push(("garrclassspecplayercond", "GarrClassSpecPlayerCond.dbd"));
    proof {
        g = g.push(("garrclassspecplayercond"@, "GarrClassSpecPlayerCond.dbd"@));
        assert(entry_views(m@) =~~= g);
    }
    m.push(("garrencountersetxencounter", "GarrEncounterSetXEncounter.dbd"));
    proof {
        g = g.push(("garrencountersetxencounter"@, "GarrEncounterSetXEncounter.dbd"@));
        assert(entry_views(m@) =~~= g);
    }
    m.push(("garrencounterxmechanic", "GarrEncounterXMechanic.dbd"));
    proof {
        g = g.push(("garrencounterxmechanic"@, "GarrEncounterXMechanic.dbd"@));
        assert(entry_views(m@) =~~= g);
    }
    m.push(("garrfamilyname", "GarrFamilyName.dbd"));
    proof {
        g = g.push(("garrfamilyname"@, "GarrFamilyName.dbd"@));
        assert(entry_views(m@) =~~= g);
    }
    m.push(("garrfollitemset", "GarrFollItemSet.dbd"));
    proof {
        g = g.push(("garrfollitemset"@, "GarrFollItemSet.dbd"@));
        assert(entry_views(m@) =~~= g);
    }
    m.push(("garrfollitemsetmember", "GarrFollItemSetMember.dbd"));
    proof {
        g = g.push(("garrfollitemsetmember"@, "GarrFollItemSetMember.dbd"@));
        assert(entry_views(m@) =~~= g);
    }
    m.push(("garrfollower", "GarrFollower.dbd"));
    proof {
        g = g.push(("garrfollower"@, "GarrFollower.dbd"@));
        assert(entry_views(m@) =~~= g);
    }
    m.push(("garrfollowerlevelxp", "GarrFollowerLevelXP.dbd"));
    proof {
        g = g.push(("garrfollowerlevelxp"@, "GarrFollowerLevelXP.dbd"@));
        assert(entry_views(m@) =~~= g);
    }
    m.push(("garrfollowerquality", "GarrFollowerQuality.dbd"));
    proof {
        g = g.push(("garrfollowerquality"@, "GarrFollowerQuality.dbd"@));
        assert(entry_views(m@) =~~= g);
    }
    m.push(("garrfollowersetxfollower", "GarrFollowerSetXFollower.dbd"));
    proof {
        g = g.push(("garrfollowersetxfollower"@, "GarrFollowerSetXFollower.dbd"@));
        assert(entry_views(m@) =~~= g);
    }
    m.push(("garrfollowertype", "GarrFollowerType.dbd"));
    proof {
        g = g.push(("garrfollowertype"@, "GarrFollowerType.dbd"@));
        assert(entry_views(m@) =~~= g);
    }
    m.push(("garrfolloweruicreature", "GarrFollowerUICreature.dbd"));
    proof {
        g = g.push(("garrfolloweruicreature"@, "GarrFollowerUICreature.dbd"@));
        assert(entry_views(m@) =~~= g);
    }
    m.push(("garrfollowerxability", "GarrFollowerXAbility.dbd"));
    proof {
        g = g.push(("garrfollowerxability"@, "GarrFollowerXAbility.dbd"@));
        assert(entry_views(m@) =~~= g);
    }
    m.push(("garrfollsupportspell", "GarrFollSupportSpell.dbd"));
    proof {
        g = g.push(("garrfollsupportspell"@, "GarrFollSupportSpell.dbd"@));
        assert(entry_views(m@) =~~= g);
    }
    m.push(("garrgivenname", "GarrGivenName.dbd"));
    proof {
        g = g.push(("garrgivenname"@, "GarrGivenName.dbd"@));
        assert(entry_views(m@) =~~= g);
    }
    m.push(("garritemlevelupgradedata", "GarrItemLevelUpgradeData.dbd"));
    proof {
        g = g.push(("garritemlevelupgradedata"@, "GarrItemLevelUpgradeData.dbd"@));
        assert(entry_views(m@) =~~= g);
    }
    m.push(("garrmechanicsetxmechanic", "GarrMechanicSetXMechanic.dbd"));
    proof {
        g = g.push(("garrmechanicsetxmechanic"@, "GarrMechanicSetXMechanic.dbd"@));
        assert(entry_views(m@) =~~= g);
    }
    m.push(("garrmechanictype", "GarrMechanicType.dbd"));
    proof {
        g = g.push(("garrmechanictype"@, "GarrMechanicType.dbd"@));
        assert(entry_views(m@) =~~= g);
    }
    m.push(("garrmission", "GarrMission.dbd"));
    proof {
        g = g.push(("garrmission"@, "GarrMission.dbd"@));
        assert(entry_views(m@) =~~= g);
    }
    m.push(("garrmissionreward", "GarrMissionReward.dbd"));
    proof {
        g = g.push(("garrmissionreward"@, "GarrMissionReward.dbd"@));
        assert(entry_views(m@) =~~= g);
    }
    m.push(("garrmissionset", "GarrMissionSet.dbd"));
    proof {
        g = g.push(("garrmissionset"@, "GarrMissionSet.dbd"@));
        assert(entry_views(m@) =~~= g);
    }
    m.push(("garrmissiontexture", "GarrMissionTexture.dbd"));
    proof {
        g = g.push(("garrmissiontexture"@, "GarrMissionTexture.dbd"@));
        assert(entry_views(m@) =~~= g);
    }
    m.push(("garrmissiontype", "GarrMissionType.dbd"));
    proof {
        g = g.push(("garrmissiontype"@, "GarrMissionType.dbd"@));
        assert(entry_views(m@) =~~= g);
    }
    m.push(("garrmissionxencounter", "GarrMissionXEncounter.dbd"));
    proof {
        g = g.push(("garrmissionxencounter"@, "GarrMissionXEncounter.dbd"@));
        assert(entry_views(m@) =~~= g);
    }
    m.push(("garrmissionxfollower", "GarrMissionXFollower.dbd"));
    proof {
        g = g.push(("garrmissionxfollower"@, "GarrMissionXFollower.dbd"@));
        assert(entry_views(m@) =~~= g);
    }
    m.push(("garrmssnbonusability", "GarrMssnBonusAbility.dbd"));
    proof {
        g = g.push(("garrmssnbonusability"@, "GarrMssnBonusAbility.dbd"@));
        assert(entry_views(m@) =~~= g);
    }
    m.push(("garrplot", "GarrPlot.dbd"));
    proof {
        g = g.push(("garrplot"@, "GarrPlot.dbd"@));
        assert(entry_views(m@) =~~= g);
        assert(m@.len() == 180);
    }
    m.push(("garrplotbuilding", "GarrPlotBuilding.dbd"));
    proof {
        g = g.push(("garrplotbuilding"@, "GarrPlotBuilding.dbd"@));
        assert(entry_views(m@) =~~= g);
    }
    m.push(("garrplotinstance", "GarrPlotInstance.dbd"));
    proof {
        g = g.push(("garrplotinstance"@, "GarrPlotInstance.dbd"@));
        assert(entry_views(m@) =~~= g);
    }
    m.push(("garrplotuicategory", "GarrPlotUICategory.dbd"));
    proof {
        g = g.push(("garrplotuicategory"@, "GarrPlotUICategory.dbd"@));
        assert(entry_views(m@) =~~= g);
    }
    m.push(("garrsitelevel", "GarrSiteLevel.dbd"));
    proof {
        g = g.push(("garrsitelevel"@, "GarrSiteLevel.dbd"@));
        assert(entry_views(m@) =~~= g);
    }
    m.push(("garrspecialization", "GarrSpecialization.dbd"));
    proof {
        g = g.push(("garrspecialization"@, "GarrSpecialization.dbd"@));
        assert(entry_views(m@) =~~= g);
    }
    m.push(("garrstring", "GarrString.dbd"));
    proof {
        g = g.push(("garrstring"@, "GarrString.dbd"@));
        assert(entry_views(m@) =~~= g);
    }
    m.push(("garrtalent", "GarrTalent.dbd"));
    proof {
        g = g.push(("garrtalent"@, "GarrTalent.dbd"@));
        assert(entry_views(m@) =~~= g);
    }
    m.push(("garrtalentcost", "GarrTalentCost.dbd"));
    proof {
        g = g.push(("garrtalentcost"@, "GarrTalentCost.dbd"@));
        assert(entry_views(m@) =~~= g);
    }
    m.push(("garrtalentmappoi", "GarrTalentMapPOI.dbd"));
    proof {
        g = g.push(("garrtalentmappoi"@, "GarrTalentMapPOI.dbd"@));
        assert(entry_views(m@) =~~= g);
    }
    m.push(("garrtalentrank", "GarrTalentRank.dbd"));
    proof {
        g = g.push(("garrtalentrank"@, "GarrTalentRank.dbd"@));
        assert(entry_views(m@) =~~= g);
    }
    m.push(("garrtalentrankgroupentry", "GarrTalentRankGroupEntry.dbd"));
    proof {
        g = g.push(("garrtalentrankgroupentry"@, "GarrTalentRankGroupEntry.dbd"@));
        assert(entry_views(m@) =~~= g);
    }
    m.push(("garrtalentrankgroupresearchmod", "GarrTalentRankGroupResearchMod.dbd"));
    proof {
        g = g.push(("garrtalentrankgroupresearchmod"@, "GarrTalentRankGroupResearchMod.dbd"@));
        assert(entry_views(m@) =~~= g);
    }
    m.push(("garrtalentresearch", "GarrTalentResearch.dbd"));
    proof {
        g = g.push(("garrtalentresearch"@, "GarrTalentResearch.dbd"@));
        assert(entry_views(m@) =~~= g);
    }
    m.push(("garrtalentsocketproperties", "GarrTalentSocketProperties.dbd"));
    proof {
        g = g.push(("garrtalentsocketproperties"@, "GarrTalentSocketProperties.dbd"@));
        assert(entry_views(m@) =~~= g);
    }
    m.push(("garrtalenttree", "GarrTalentTree.dbd"));
    proof {
        g = g.push(("garrtalenttree"@, "GarrTalentTree.dbd"@));
        assert(entry_views(m@) =~~= g);
    }
    m.push(("garrtaltreexgarrtalresearch", "GarrTalTreeXGarrTalResearch.dbd"));
    proof {
        g = g.push(("garrtaltreexgarrtalresearch"@, "GarrTalTreeXGarrTalResearch.dbd"@));
        assert(entry_views(m@) =~~= g);
    }
    m.push(("garrtype", "GarrType.dbd"));
    proof {
        g = g.push(("garrtype"@, "GarrType.dbd"@));
        assert(entry_views(m@) =~~= g);
    }
    m.push(("garruianimclassinfo", "GarrUiAnimClassInfo.dbd"));
    proof {
        g = g.push(("garruianimclassinfo"@, "GarrUiAnimClassInfo.dbd"@));
        assert(entry_views(m@) =~~= g);
    }
    m.push(("garruianimraceinfo", "GarrUiAnimRaceInfo.dbd"));
    proof {
        g = g.push(("garruianimraceinfo"@, "GarrUiAnimRaceInfo.dbd"@));
        assert(entry_views(m@) =~~= g);
    }
    m.push(("glideevent", "GlideEvent.dbd"));
    proof {
        g = g.push(("glideevent"@, "GlideEvent.dbd"@));
        assert(entry_views(m@) =~~= g);
    }
    m.push(("glideeventblendtimes", "GlideEventBlendTimes.dbd"));
    proof {
        g = g.push(("glideeventblendtimes"@, "GlideEventBlendTimes.dbd"@));
        assert(entry_views(m@) =~~= g);
    }
    m.push(("globalcolor", "GlobalColor.dbd"));
    proof {
        g = g.push(("globalcolor"@, "GlobalColor.dbd"@));
        assert(entry_views(m@) =~~= g);
    }
    m.push(("globalcurve", "GlobalCurve.dbd"));
    proof {
        g = g.push(("globalcurve"@, "GlobalCurve.dbd"@));
        assert(entry_views(m@) =~~= g);
    }
    m.push(("globalgamecontenttuning", "GlobalGameContentTuning.dbd"));
    proof {
        g = g.push(("globalgamecontenttuning"@, "GlobalGameContentTuning.dbd"@));
        assert(entry_views(m@) =~~= g);
    }
    m.push(("globalplayercondition", "GlobalPlayerCondition.dbd"));
    proof {
        g = g.push(("globalplayercondition"@, "GlobalPlayerCondition.dbd"@));
        assert(entry_views(m@) =~~= g);
    }
    m.push(("globalplayerconditionset", "GlobalPlayerConditionSet.dbd"));
    proof {
        g = g.push(("globalplayerconditionset"@, "GlobalPlayerConditionSet.dbd"@));
        assert(entry_views(m@) =~~= g);
    }
    m.push(("globalstrings", "GlobalStrings.dbd"));
    proof {
        g = g.push(("globalstrings"@, "GlobalStrings.dbd"@));
        assert(entry_views(m@) =~~= g);
    }
    m.push(("globaltable_playercondition", "GlobalTable_PlayerCondition.dbd"));
    proof {
        g = g.push(("globaltable_playercondition"@, "GlobalTable_PlayerCondition.dbd"@));
        assert(entry_views(m@) =~~= g);
    }
    m.push(("gluescreenemote", "GlueScreenEmote.dbd"));
    proof {
        g = g.push(("gluescreenemote"@, "GlueScreenEmote.dbd"@));
        assert(entry_views(m@) =~~= g);
    }
    m.push(("glyphbindablespell", "GlyphBindableSpell.dbd"));
    proof {
        g = g.push(("glyphbindablespell"@, "GlyphBindableSpell.dbd"@));
        assert(entry_views(m@) =~~= g);
        assert(m@.len() == 210);
    }
    proof {
        reveal(catalog_data_b);
        assert(g == catalog_data_b());
    }
    m
}

/// One slice of the embedded catalog data; it carries exactly the
/// pairs its specification-level slice states.
fn catalog_entries_c() -> (m: Vec<(&'static str, &'static str)>)
    ensures
        m@.len() == 210,
        entry_views(m@) == catalog_data_c(),
{
    let mut m: Vec<(&'static str, &'static str)> = Vec::new();
    let ghost mut g: Seq<(Seq<char>, Seq<char>)> = Seq::empty();
    proof {
        assert(entry_views(m@) =~~= g);
    }
    m.push(("glyphexclusivecategory", "GlyphExclusiveCategory.dbd"));
    proof {
        g = g.push(("glyphexclusivecategory"@, "GlyphExclusiveCategory.dbd"@));
        assert(entry_views(m@) =~~= g);
    }
    m.push(("glyphproperties", "GlyphProperties.dbd"));
    proof {
        g = g.push(("glyphproperties"@, "GlyphProperties.dbd"@));
        assert(entry_views(m@) =~~= g);
    }
    m.push(("glyphrequiredspec", "GlyphRequiredSpec.dbd"));
    proof {
        g = g.push(("glyphrequiredspec"@, "GlyphRequiredSpec.dbd"@));
        assert(entry_views(m@) =~~= g);
    }
    m.push(("glyphslot", "GlyphSlot.dbd"));
    proof {
        g = g.push(("glyphslot"@, "GlyphSlot.dbd"@));
        assert(entry_views(m@) =~~= g);
    }
    m.push(("gmsurveycurrentsurvey", "GMSurveyCurrentSurvey.dbd"));
    proof {
        g = g.push(("gmsurveycurrentsurvey"@, "GMSurveyCurrentSurvey.dbd"@));
        assert(entry_views(m@) =~~= g);
    }
    m.push(("gmsurveyquestions", "GMSurveyQuestions.dbd"));
    proof {
        g = g.push(("gmsurveyquestions"@, "GMSurveyQuestions.dbd"@));
        assert(entry_views(m@) =~~= g);
    }
    m.push(("gmsurveysurveys", "GMSurveySurveys.dbd"));
    proof {
        g = g.push(("gmsurveysurveys"@, "GMSurveySurveys.dbd"@));
        assert(entry_views(m@) =~~= g);
    }
    m.push(("gmticketcategory", "GMTicketCategory.dbd"));
    proof {
        g = g.push(("gmticketcategory"@, "GMTicketCategory.dbd"@));
        assert(entry_views(m@) =~~= g);
    }
    m.push(("gossipnpcoption", "GossipNPCOption.dbd"));
    proof {
        g = g.push(("gossipnpcoption"@, "GossipNPCOption.dbd"@));
        assert(entry_views(m@) =~~= g);
    }
    m.push(("gossipnpcoptiondisplayinfo", "GossipNPCOptionDisplayInfo.dbd"));
    proof {
        g = g.push(("gossipnpcoptiondisplayinfo"@, "GossipNPCOptionDisplayInfo.dbd"@));
        assert(entry_views(m@) =~~= g);
    }
    m.push(("gossipoptionxuiwidgetset", "GossipOptionXUIWidgetSet.dbd"));
    proof {
        g = g.push(("gossipoptionxuiwidgetset"@, "GossipOptionXUIWidgetSet.dbd"@));
        assert(entry_views(m@) =~~= g);
    }
    m.push(("gossipuidisplayinfocondition", "GossipUIDisplayInfoCondition.dbd"));
    proof {
        g = g.push(("gossipuidisplayinfocondition"@, "GossipUIDisplayInfoCondition.dbd"@));
        assert(entry_views(m@) =~~= g);
    }
    m.push(("gossipxgarrtalenttrees", "GossipXGarrTalentTrees.dbd"));
    proof {
        g = g.push(("gossipxgarrtalenttrees"@, "GossipXGarrTalentTrees.dbd"@));
        assert(entry_views(m@) =~~= g);
    }
    m.push(("gossipxuidisplayinfo", "GossipXUIDisplayInfo.dbd"));
    proof {
        g = g.push(("gossipxuidisplayinfo"@, "GossipXUIDisplayInfo.dbd"@));
        assert(entry_views(m@) =~~= g);
    }
    m.push(("gradienteffect", "GradientEffect.dbd"));
    proof {
        g = g.push(("gradienteffect"@, "GradientEffect.dbd"@));
        assert(entry_views(m@) =~~= g);
    }
    m.push(("groundeffectdoodad", "GroundEffectDoodad.dbd"));
    proof {
        g = g.push(("groundeffectdoodad"@, "GroundEffectDoodad.dbd"@));
        assert(entry_views(m@) =~~= g);
    }
    m.push(("groundeffecttexture", "GroundEffectTexture.dbd"));
    proof {
        g = g.push(("groundeffecttexture"@, "GroundEffectTexture.dbd"@));
        assert(entry_views(m@) =~~= g);
    }
    m.push(("groupfinderactivity", "GroupFinderActivity.dbd"));
    proof {
        g = g.push(("groupfinderactivity"@, "GroupFinderActivity.dbd"@));
        assert(entry_views(m@) =~~= g);
    }
    m.push(("groupfinderactivitygrp", "GroupFinderActivityGrp.dbd"));
    proof {
        g = g.push(("groupfinderactivitygrp"@, "GroupFinderActivityGrp.dbd"@));
        assert(entry_views(m@) =~~= g);
    }
    m.push(("groupfindercategory", "GroupFinderCategory.dbd"));
    proof {
        g = g.push(("groupfindercategory"@, "GroupFinderCategory.dbd"@));
        assert(entry_views(m@) =~~= g);
    }
    m.push(("gtarmormitigationbylvl", "gtArmorMitigationByLvl.dbd"));
    proof {
        g = g.push(("gtarmormitigationbylvl"@, "gtArmorMitigationByLvl.dbd"@));
        assert(entry_views(m@) =~~= g);
    }
    m.push(("gtbarbershopcostbase", "gtBarberShopCostBase.dbd"));
    proof {
        g = g.push(("gtbarbershopcostbase"@, "gtBarberShopCostBase.dbd"@));
        assert(entry_views(m@) =~~= g);
    }
    m.push(("gtbattlepettypedamagemod", "gtBattlePetTypeDamageMod.dbd"));
    proof {
        g = g.push(("gtbattlepettypedamagemod"@, "gtBattlePetTypeDamageMod.dbd"@));
        assert(entry_views(m@) =~~= g);
    }
    m.push(("gtbattlepetxp", "gtBattlePetXP.dbd"));
    proof {
        g = g.push(("gtbattlepetxp"@, "gtBattlePetXP.dbd"@));
        assert(entry_views(m@) =~~= g);
    }
    m.push(("gtchancetomeleecrit", "gtChanceToMeleeCrit.dbd"));
    proof {
        g = g.push(("gtchancetomeleecrit"@, "gtChanceToMeleeCrit.dbd"@));
        assert(entry_views(m@) =~~= g);
    }
    m.push(("gtchancetomeleecritbase", "gtChanceToMeleeCritBase.dbd"));
    proof {
        g = g.push(("gtchancetomeleecritbase"@, "gtChanceToMeleeCritBase.dbd"@));
        assert(entry_views(m@) =~~= g);
    }
    m.push(("gtchancetospellcrit", "gtChanceToSpellCrit.dbd"));
    proof {
        g = g.push(("gtchancetospellcrit"@, "gtChanceToSpellCrit.dbd"@));
        assert(entry_views(m@) =~~= g);
    }
    m.push(("gtchancetospellcritbase", "gtChanceToSpellCritBase.dbd"));
    proof {
        g = g.push(("gtchancetospellcritbase"@, "gtChanceToSpellCritBase.dbd"@));
        assert(entry_views(m@) =~~= g);
    }
    m.push(("gtcombatratings", "gtCombatRatings.dbd"));
    proof {
        g = g.push(("gtcombatratings"@, "gtCombatRatings.dbd"@));
        assert(entry_views(m@) =~~= g);
    }
    m.push(("gtitemsocketcostperlevel", "gtItemSocketCostPerLevel.dbd"));
    proof {
        g = g.push(("gtitemsocketcostperlevel"@, "gtItemSocketCostPerLevel.dbd"@));
        assert(entry_views(m@) =~~= g);
        assert(m@.len() == 30);
    }
    m.push(("gtmasterymultipliers", "gtMasteryMultipliers.dbd"));
    proof {
        g = g.push(("gtmasterymultipliers"@, "gtMasteryMultipliers.dbd"@));
        assert(entry_views(m@) =~~= g);
    }
    m.push(("gtnpcmanacostscaler", "gtNPCManaCostScaler.dbd"));
    proof {
        g = g.push(("gtnpcmanacostscaler"@, "gtNPCManaCostScaler.dbd"@));
        assert(entry_views(m@) =~~= g);
    }
    m.push(("gtoctbasehpbyclass", "gtOCTBaseHPByClass.dbd"));
    proof {
        g = g.push(("gtoctbasehpbyclass"@, "gtOCTBaseHPByClass.dbd"@));
        assert(entry_views(m@) =~~= g);
    }
    m.push(("gtoctbasempbyclass", "gtOCTBaseMPByClass.dbd"));
    proof {
        g = g.push(("gtoctbasempbyclass"@, "gtOCTBaseMPByClass.dbd"@));
        assert(entry_views(m@) =~~= g);
    }
    m.push(("gtoctclasscombatratingscalar", "gtOCTClassCombatRatingScalar.dbd"));
    proof {
        g = g.push(("gtoctclasscombatratingscalar"@, "gtOCTClassCombatRatingScalar.dbd"@));
        assert(entry_views(m@) =~~= g);
    }
    m.push(("gtocthpperstamina", "gtOCTHpPerStamina.dbd"));
    proof {
        g = g.push(("gtocthpperstamina"@, "gtOCTHpPerStamina.dbd"@));
        assert(entry_views(m@) =~~= g);
    }
    m.push(("gtoctlevelexperience", "gtOCTLevelExperience.dbd"));
    proof {
        g = g.push(("gtoctlevelexperience"@, "gtOCTLevelExperience.dbd"@));
        assert(entry_views(m@) =~~= g);
    }
    m.push(("gtoctregenhp", "gtOCTRegenHP.dbd"));
    proof {
        g = g.push(("gtoctregenhp"@, "gtOCTRegenHP.dbd"@));
        assert(entry_views(m@) =~~= g);
    }
    m.push(("gtoctregenmp", "gtOCTRegenMP.dbd"));
    proof {
        g = g.push(("gtoctregenmp"@, "gtOCTRegenMP.dbd"@));
        assert(entry_views(m@) =~~= g);
    }
    m.push(("gtregenhpperspt", "gtRegenHPPerSpt.dbd"));
    proof {
        g = g.push(("gtregenhpperspt"@, "gtRegenHPPerSpt.dbd"@));
        assert(entry_views(m@) =~~= g);
    }
    m.push(("gtregenmpperspt", "gtRegenMPPerSpt.dbd"));
    proof {
        g = g.push(("gtregenmpperspt"@, "gtRegenMPPerSpt.dbd"@));
        assert(entry_views(m@) =~~= g);
    }
    m.push(("gtresiliencedr", "gtResilienceDR.dbd"));
    proof {
        g = g.push(("gtresiliencedr"@, "gtResilienceDR.dbd"@));
        assert(entry_views(m@) =~~= g);
    }
    m.push(("gtspellscaling", "gtSpellScaling.dbd"));
    proof {
        g = g.push(("gtspellscaling"@, "gtSpellScaling.dbd"@));
        assert(entry_views(m@) =~~= g);
    }
    m.push(("holidaynames", "HolidayNames.dbd"));
    proof {
        g = g.push(("holidaynames"@, "HolidayNames.dbd"@));
        assert(entry_views(m@) =~~= g);
    }
    m.push(("holidays", "Holidays.dbd"));
    proof {
        g = g.push(("holidays"@, "Holidays.dbd"@));
        assert(entry_views(m@) =~~= g);
    }
    m.push(("holidayxtimeevent", "HolidayXTimeEvent.dbd"));
    proof {
        g = g.push(("holidayxtimeevent"@, "HolidayXTimeEvent.dbd"@));
        assert(entry_views(m@) =~~= g);
    }
    m.push(("hotfix", "Hotfix.dbd"));
    proof {
        g = g.push(("hotfix"@, "Hotfix.dbd"@));
        assert(entry_views(m@) =~~= g);
    }
    m.push(("hotfixes", "Hotfixes.dbd"));
    proof {
        g = g.push(("hotfixes"@, "Hotfixes.dbd"@));
        assert(entry_views(m@) =~~= g);
    }
    m.push(("housedecor", "HouseDecor.dbd"));
    proof {
        g = g.push(("housedecor"@, "HouseDecor.dbd"@));
        assert(entry_views(m@) =~~= g);
    }
    m.push(("importpricearmor", "ImportPriceArmor.dbd"));
    proof {
        g = g.push(("importpricearmor"@, "ImportPriceArmor.dbd"@));
        assert(entry_views(m@) =~~= g);
    }
    m.push(("importpricequality", "ImportPriceQuality.dbd"));
    proof {
        g = g.push(("importpricequality"@, "ImportPriceQuality.dbd"@));
        assert(entry_views(m@) =~~= g);
    }
    m.push(("importpriceshield", "ImportPriceShield.dbd"));
    proof {
        g = g.push(("importpriceshield"@, "ImportPriceShield.dbd"@));
        assert(entry_views(m@) =~~= g);
    }
    m.push(("importpriceweapon", "ImportPriceWeapon.dbd"));
    proof {
        g = g.push(("importpriceweapon"@, "ImportPriceWeapon.dbd"@));
        assert(entry_views(m@) =~~= g);
    }
    m.push(("invasionclientdata", "InvasionClientData.dbd"));
    proof {
        g = g.push(("invasionclientdata"@, "InvasionClientData.dbd"@));
        assert(entry_views(m@) =~~= g);
    }
    m.push(("item-sparse", "Item-sparse.dbd"));
    proof {
        g = g.push(("item-sparse"@, "Item-sparse.dbd"@));
        assert(entry_views(m@) =~~= g);
    }
    m.push(("item", "Item.dbd"));
    proof {
        g = g.push(("item"@, "Item.dbd"@));
        assert(entry_views(m@) =~~= g);
    }
    m.push(("itemappearance", "ItemAppearance.dbd"));
    proof {
        g = g.push(("itemappearance"@, "ItemAppearance.dbd"@));
        assert(entry_views(m@) =~~= g);
    }
    m.push(("itemappearancexuicamera", "ItemAppearanceXUiCamera.dbd"));
    proof {
        g = g.push(("itemappearancexuicamera"@, "ItemAppearanceXUiCamera.dbd"@));
        assert(entry_views(m@) =~~= g);
    }
    m.push(("itemarmorquality", "ItemArmorQuality.dbd"));
    proof {
        g = g.push(("itemarmorquality"@, "ItemArmorQuality.dbd"@));
        assert(entry_views(m@) =~~= g);
    }
    m.push(("itemarmortotal", "ItemArmorTotal.dbd"));
    proof {
        g = g.push(("itemarmortotal"@, "ItemArmorTotal.dbd"@));
        assert(entry_views(m@) =~~= g);
        assert(m@.len() == 60);
    }
    m.push(("itembagfamily", "ItemBagFamily.dbd"));
    proof {
        g = g.push(("itembagfamily"@, "ItemBagFamily.dbd"@));
        assert(entry_views(m@) =~~= g);
    }
    m.push(("itembonus", "ItemBonus.dbd"));
    proof {
        g = g.push(("itembonus"@, "ItemBonus.dbd"@));
        assert(entry_views(m@) =~~= g);
    }
    m.push(("itembonuslist", "ItemBonusList.dbd"));
    proof {
        g = g.push(("itembonuslist"@, "ItemBonusList.dbd"@));
        assert(entry_views(m@) =~~= g);
    }
    m.push(("itembonuslistgroup", "ItemBonusListGroup.dbd"));
    proof {
        g = g.push(("itembonuslistgroup"@, "ItemBonusListGroup.dbd"@));
        assert(entry_views(m@) =~~= g);
    }
    m.push(("itembonuslistgroupentry", "ItemBonusListGroupEntry.dbd"));
    proof {
        g = g.push(("itembonuslistgroupentry"@, "ItemBonusListGroupEntry.dbd"@));
        assert(entry_views(m@) =~~= g);
    }
    m.push(("itembonuslistleveldelta", "ItemBonusListLevelDelta.dbd"));
    proof {
        g = g.push(("itembonuslistleveldelta"@, "ItemBonusListLevelDelta.dbd"@));
        assert(entry_views(m@) =~~= g);
    }
    m.push(("itembonuslistwarforgeleveldelta", "ItemBonusListWarforgeLevelDelta.dbd"));
    proof {
        g = g.push(("itembonuslistwarforgeleveldelta"@, "ItemBonusListWarforgeLevelDelta.dbd"@));
        assert(entry_views(m@) =~~= g);
    }
    m.push(("itembonusseason", "ItemBonusSeason.dbd"));
    proof {
        g = g.push(("itembonusseason"@, "ItemBonusSeason.dbd"@));
        assert(entry_views(m@) =~~= g);
    }
    m.push(("itembonusseasonbonuslistgroup", "ItemBonusSeasonBonusListGroup.dbd"));
    proof {
        g = g.push(("itembonusseasonbonuslistgroup"@, "ItemBonusSeasonBonusListGroup.dbd"@));
        assert(entry_views(m@) =~~= g);
    }
    m.push(("itembonusseasonupgradecost", "ItemBonusSeasonUpgradeCost.dbd"));
    proof {
        g = g.push(("itembonusseasonupgradecost"@, "ItemBonusSeasonUpgradeCost.dbd"@));
        assert(entry_views(m@) =~~= g);
    }
    m.push(("itembonussequencespell", "ItemBonusSequenceSpell.dbd"));
    proof {
        g = g.push(("itembonussequencespell"@, "ItemBonusSequenceSpell.dbd"@));
        assert(entry_views(m@) =~~= g);
    }
    m.push(("itembonustree", "ItemBonusTree.dbd"));
    proof {
        g = g.push(("itembonustree"@, "ItemBonusTree.dbd"@));
        assert(entry_views(m@) =~~= g);
    }
    m.push(("itembonustreegroupentry", "ItemBonusTreeGroupEntry.dbd"));
    proof {
        g = g.push(("itembonustreegroupentry"@, "ItemBonusTreeGroupEntry.dbd"@));
        assert(entry_views(m@) =~~= g);
    }
    m.push(("itembonustreenode", "ItemBonusTreeNode.dbd"));
    proof {
        g = g.push(("itembonustreenode"@, "ItemBonusTreeNode.dbd"@));
        assert(entry_views(m@) =~~= g);
    }
    m.push(("craftingitem", "CraftingItem.dbd"));
    proof {
        g = g.push(("craftingitem"@, "CraftingItem.dbd"@));
        assert(entry_views(m@) =~~= g);
    }
    m.push(("creaturedisplayinfoextra", "CreatureDisplayInfoExtra.dbd"));
    proof {
        g = g.push(("creaturedisplayinfoextra"@, "CreatureDisplayInfoExtra.dbd"@));
        assert(entry_views(m@) =~~= g);
    }
    m.push(("creaturexcontribution", "CreatureXContribution.dbd"));
    proof {
        g = g.push(("creaturexcontribution"@, "CreatureXContribution.dbd"@));
        assert(entry_views(m@) =~~= g);
    }
    m.push(("delvesseason", "DelvesSeason.dbd"));
    proof {
        g = g.push(("delvesseason"@, "DelvesSeason.dbd"@));
        assert(entry_views(m@) =~~= g);
    }
    m.push(("emoteanims", "EmoteAnims.dbd"));
    proof {
        g = g.push(("emoteanims"@, "EmoteAnims.dbd"@));
        assert(entry_views(m@) =~~= g);
    }
    m.push(("flightcapability", "FlightCapability.dbd"));
    proof {
        g = g.push(("flightcapability"@, "FlightCapability.dbd"@));
        assert(entry_views(m@) =~~= g);
    }
    m.push(("gameobjects", "GameObjects.dbd"));
    proof {
        g = g.push(("gameobjects"@, "GameObjects.dbd"@));
        assert(entry_views(m@) =~~= g);
    }
    m.push(("garrencounter", "GarrEncounter.dbd"));
    proof {
        g = g.push(("garrencounter"@, "GarrEncounter.dbd"@));
        assert(entry_views(m@) =~~= g);
    }
    m.push(("garrmechanic", "GarrMechanic.dbd"));
    proof {
        g = g.push(("garrmechanic"@, "GarrMechanic.dbd"@));
        assert(entry_views(m@) =~~= g);
    }
    m.push(("garrsitelevelplotinst", "GarrSiteLevelPlotInst.dbd"));
    proof {
        g = g.push(("garrsitelevelplotinst"@, "GarrSiteLevelPlotInst.dbd"@));
        assert(entry_views(m@) =~~= g);
    }
    m.push(("gemproperties", "GemProperties.dbd"));
    proof {
        g = g.push(("gemproperties"@, "GemProperties.dbd"@));
        assert(entry_views(m@) =~~= g);
    }
    m.push(("gmsurveyanswers", "GMSurveyAnswers.dbd"));
    proof {
        g = g.push(("gmsurveyanswers"@, "GMSurveyAnswers.dbd"@));
        assert(entry_views(m@) =~~= g);
    }
    m.push(("groupfinderactivityxpvpbracket", "GroupFinderActivityXPvpBracket.dbd"));
    proof {
        g = g.push(("groupfinderactivityxpvpbracket"@, "GroupFinderActivityXPvpBracket.dbd"@));
        assert(entry_views(m@) =~~= g);
    }
    m.push(("guildcolorbackground", "GuildColorBackground.dbd"));
    proof {
        g = g.push(("guildcolorbackground"@, "GuildColorBackground.dbd"@));
        assert(entry_views(m@) =~~= g);
    }
    m.push(("holidaydescriptions", "HolidayDescriptions.dbd"));
    proof {
        g = g.push(("holidaydescriptions"@, "HolidayDescriptions.dbd"@));
        assert(entry_views(m@) =~~= g);
    }
    m.push(("itemclass", "ItemClass.dbd"));
    proof {
        g = g.push(("itemclass"@, "ItemClass.dbd"@));
        assert(entry_views(m@) =~~= g);
        assert(m@.len() == 90);
    }
    m.push(("itemcondextcosts", "ItemCondExtCosts.dbd"));
    proof {
        g = g.push(("itemcondextcosts"@, "ItemCondExtCosts.dbd"@));
        assert(entry_views(m@) =~~= g);
    }
    m.push(("itemcondition", "ItemCondition.dbd"));
    proof {
        g = g.push(("itemcondition"@, "ItemCondition.dbd"@));
        assert(entry_views(m@) =~~= g);
    }
    m.push(("itemcontextpickerentry", "ItemContextPickerEntry.dbd"));
    proof {
        g = g.push(("itemcontextpickerentry"@, "ItemContextPickerEntry.dbd"@));
        assert(entry_views(m@) =~~= g);
    }
    m.push(("itemconversion", "ItemConversion.dbd"));
    proof {
        g = g.push(("itemconversion"@, "ItemConversion.dbd"@));
        assert(entry_views(m@) =~~= g);
    }
    m.push(("itemconversionentry", "ItemConversionEntry.dbd"));
    proof {
        g = g.push(("itemconversionentry"@, "ItemConversionEntry.dbd"@));
        assert(entry_views(m@) =~~= g);
    }
    m.push(("itemcreationcontext", "ItemCreationContext.dbd"));
    proof {
        g = g.push(("itemcreationcontext"@, "ItemCreationContext.dbd"@));
        assert(entry_views(m@) =~~= g);
    }
    m.push(("itemcreationcontextgroup", "ItemCreationContextGroup.dbd"));
    proof {
        g = g.push(("itemcreationcontextgroup"@, "ItemCreationContextGroup.dbd"@));
        assert(entry_views(m@) =~~= g);
    }
    m.push(("itemcurrencycost", "ItemCurrencyCost.dbd"));
    proof {
        g = g.push(("itemcurrencycost"@, "ItemCurrencyCost.dbd"@));
        assert(entry_views(m@) =~~= g);
    }
    m.push(("itemcurrencyvalue", "ItemCurrencyValue.dbd"));
    proof {
        g = g.push(("itemcurrencyvalue"@, "ItemCurrencyValue.dbd"@));
        assert(entry_views(m@) =~~= g);
    }
    m.push(("itemdamageammo", "ItemDamageAmmo.dbd"));
    proof {
        g = g.push(("itemdamageammo"@, "ItemDamageAmmo.dbd"@));
        assert(entry_views(m@) =~~= g);
    }
    m.push(("itemdamageonehand", "ItemDamageOneHand.dbd"));
    proof {
        g = g.push(("itemdamageonehand"@, "ItemDamageOneHand.dbd"@));
        assert(entry_views(m@) =~~= g);
    }
    m.push(("itemdamageonehandcaster", "ItemDamageOneHandCaster.dbd"));
    proof {
        g = g.push(("itemdamageonehandcaster"@, "ItemDamageOneHandCaster.dbd"@));
        assert(entry_views(m@) =~~= g);
    }
    m.push(("itemdamageranged", "ItemDamageRanged.dbd"));
    proof {
        g = g.push(("itemdamageranged"@, "ItemDamageRanged.dbd"@));
        assert(entry_views(m@) =~~= g);
    }
    m.push(("itemdamagethrown", "ItemDamageThrown.dbd"));
    proof {
        g = g.push(("itemdamagethrown"@, "ItemDamageThrown.dbd"@));
        assert(entry_views(m@) =~~= g);
    }
    m.push(("itemdamagetwohandcaster", "ItemDamageTwoHandCaster.dbd"));
    proof {
        g = g.push(("itemdamagetwohandcaster"@, "ItemDamageTwoHandCaster.dbd"@));
        assert(entry_views(m@) =~~= g);
    }
    m.push(("itemdamagewand", "ItemDamageWand.dbd"));
    proof {
        g = g.push(("itemdamagewand"@, "ItemDamageWand.dbd"@));
        assert(entry_views(m@) =~~= g);
    }
    m.push(("itemdisenchantloot", "ItemDisenchantLoot.dbd"));
    proof {
        g = g.push(("itemdisenchantloot"@, "ItemDisenchantLoot.dbd"@));
        assert(entry_views(m@) =~~= g);
    }
    m.push(("itemdisplayinfo", "ItemDisplayInfo.dbd"));
    proof {
        g = g.push(("itemdisplayinfo"@, "ItemDisplayInfo.dbd"@));
        assert(entry_views(m@) =~~= g);
    }
    m.push(("itemdisplayinfomaterialres", "ItemDisplayInfoMaterialRes.dbd"));
    proof {
        g = g.push(("itemdisplayinfomaterialres"@, "ItemDisplayInfoMaterialRes.dbd"@));
        assert(entry_views(m@) =~~= g);
    }
    m.push(("itemdisplayinfomodelmatres", "ItemDisplayInfoModelMatRes.dbd"));
    proof {
        g = g.push(("itemdisplayinfomodelmatres"@, "ItemDisplayInfoModelMatRes.dbd"@));
        assert(entry_views(m@) =~~= g);
    }
    m.push(("itemdisplayxuicamera", "ItemDisplayXUiCamera.dbd"));
    proof {
        g = g.push(("itemdisplayxuicamera"@, "ItemDisplayXUiCamera.dbd"@));
        assert(entry_views(m@) =~~= g);
    }
    m.push(("itemeffect", "ItemEffect.dbd"));
    proof {
        g = g.push(("itemeffect"@, "ItemEffect.dbd"@));
        assert(entry_views(m@) =~~= g);
    }
    m.push(("itemextendedcost", "ItemExtendedCost.dbd"));
    proof {
        g = g.push(("itemextendedcost"@, "ItemExtendedCost.dbd"@));
        assert(entry_views(m@) =~~= g);
    }
    m.push(("itemfallbackvisual", "ItemFallbackVisual.dbd"));
    proof {
        g = g.push(("itemfallbackvisual"@, "ItemFallbackVisual.dbd"@));
        assert(entry_views(m@) =~~= g);
    }
    m.push(("itemfixup", "ItemFixup.dbd"));
    proof {
        g = g.push(("itemfixup"@, "ItemFixup.dbd"@));
        assert(entry_views(m@) =~~= g);
    }
    m.push(("itemfixupaction", "ItemFixupAction.dbd"));
    proof {
        g = g.push(("itemfixupaction"@, "ItemFixupAction.dbd"@));
        assert(entry_views(m@) =~~= g);
    }
    m.push(("itemgroupilvlscalingentry", "ItemGroupIlvlScalingEntry.dbd"));
    proof {
        g = g.push(("itemgroupilvlscalingentry"@, "ItemGroupIlvlScalingEntry.dbd"@));
        assert(entry_views(m@) =~~= g);
    }
    m.push(("itemgroupsounds", "ItemGroupSounds.dbd"));
    proof {
        g = g.push(("itemgroupsounds"@, "ItemGroupSounds.dbd"@));
        assert(entry_views(m@) =~~= g);
    }
    m.push(("itemlevelselector", "ItemLevelSelector.dbd"));
    proof {
        g = g.push(("itemlevelselector"@, "ItemLevelSelector.dbd"@));
        assert(entry_views(m@) =~~= g);
    }
    m.push(("itemlevelselectorqualityset", "ItemLevelSelectorQualitySet.dbd"));
    proof {
        g = g.push(("itemlevelselectorqualityset"@, "ItemLevelSelectorQualitySet.dbd"@));
        assert(entry_views(m@) =~~= g);
        assert(m@.len() == 120);
    }
    m.push(("itemlevelwatermark", "ItemLevelWatermark.dbd"));
    proof {
        g = g.push(("itemlevelwatermark"@, "ItemLevelWatermark.dbd"@));
        assert(entry_views(m@) =~~= g);
    }
    m.push(("itemlimitcategory", "ItemLimitCategory.dbd"));
    proof {
        g = g.push(("itemlimitcategory"@, "ItemLimitCategory.dbd"@));
        assert(entry_views(m@) =~~= g);
    }
    m.push(("itemlimitcategorycondition", "ItemLimitCategoryCondition.dbd"));
    proof {
        g = g.push(("itemlimitcategorycondition"@, "ItemLimitCategoryCondition.dbd"@));
        assert(entry_views(m@) =~~= g);
    }
    m.push(("itemlogicalcost", "ItemLogicalCost.dbd"));
    proof {
        g = g.push(("itemlogicalcost"@, "ItemLogicalCost.dbd"@));
        assert(entry_views(m@) =~~= g);
    }
    m.push(("itemlogicalcostgroup", "ItemLogicalCostGroup.dbd"));
    proof {
        g = g.push(("itemlogicalcostgroup"@, "ItemLogicalCostGroup.dbd"@));
        assert(entry_views(m@) =~~= g);
    }
    m.push(("itemmodifiedappearance", "ItemModifiedAppearance.dbd"));
    proof {
        g = g.push(("itemmodifiedappearance"@, "ItemModifiedAppearance.dbd"@));
        assert(entry_views(m@) =~~= g);
    }
    m.push(("itemmodifiedappearanceextra", "ItemModifiedAppearanceExtra.dbd"));
    proof {
        g = g.push(("itemmodifiedappearanceextra"@, "ItemModifiedAppearanceExtra.dbd"@));
        assert(entry_views(m@) =~~= g);
    }
    m.push(("itemnamedescription", "ItemNameDescription.dbd"));
    proof {
        g = g.push(("itemnamedescription"@, "ItemNameDescription.dbd"@));
        assert(entry_views(m@) =~~= g);
    }
    m.push(("itemnameslotoverride", "ItemNameSlotOverride.dbd"));
    proof {
        g = g.push(("itemnameslotoverride"@, "ItemNameSlotOverride.dbd"@));
        assert(entry_views(m@) =~~= g);
    }
    m.push(("itemoffsetcurve", "ItemOffsetCurve.dbd"));
    proof {
        g = g.push(("itemoffsetcurve"@, "ItemOffsetCurve.dbd"@));
        assert(entry_views(m@) =~~= g);
    }
    m.push(("itempetfood", "ItemPetFood.dbd"));
    proof {
        g = g.push(("itempetfood"@, "ItemPetFood.dbd"@));
        assert(entry_views(m@) =~~= g);
    }
    m.push(("itempricebase", "ItemPriceBase.dbd"));
    proof {
        g = g.push(("itempricebase"@, "ItemPriceBase.dbd"@));
        assert(entry_views(m@) =~~= g);
    }
    m.push(("itempurchasegroup", "ItemPurchaseGroup.dbd"));
    proof {
        g = g.push(("itempurchasegroup"@, "ItemPurchaseGroup.dbd"@));
        assert(entry_views(m@) =~~= g);
    }
    m.push(("itemrandomproperties", "ItemRandomProperties.dbd"));
    proof {
        g = g.push(("itemrandomproperties"@, "ItemRandomProperties.dbd"@));
        assert(entry_views(m@) =~~= g);
    }
    m.push(("itemrandomsuffix", "ItemRandomSuffix.dbd"));
    proof {
        g = g.push(("itemrandomsuffix"@, "ItemRandomSuffix.dbd"@));
        assert(entry_views(m@) =~~= g);
    }
    m.push(("itemrecraft", "ItemRecraft.dbd"));
    proof {
        g = g.push(("itemrecraft"@, "ItemRecraft.dbd"@));
        assert(entry_views(m@) =~~= g);
    }
    m.push(("itemreforge", "ItemReforge.dbd"));
    proof {
        g = g.push(("itemreforge"@, "ItemReforge.dbd"@));
        assert(entry_views(m@) =~~= g);
    }
    m.push(("itemsalvage", "ItemSalvage.dbd"));
    proof {
        g = g.push(("itemsalvage"@, "ItemSalvage.dbd"@));
        assert(entry_views(m@) =~~= g);
    }
    m.push(("itemsalvageloot", "ItemSalvageLoot.dbd"));
    proof {
        g = g.push(("itemsalvageloot"@, "ItemSalvageLoot.dbd"@));
        assert(entry_views(m@) =~~= g);
    }
    m.push(("itemscalingconfig", "ItemScalingConfig.dbd"));
    proof {
        g = g.push(("itemscalingconfig"@, "ItemScalingConfig.dbd"@));
        assert(entry_views(m@) =~~= g);
    }
    m.push(("itemsearchname", "ItemSearchName.dbd"));
    proof {
        g = g.push(("itemsearchname"@, "ItemSearchName.dbd"@));
        assert(entry_views(m@) =~~= g);
    }
    m.push(("itemset", "ItemSet.dbd"));
    proof {
        g = g.push(("itemset"@, "ItemSet.dbd"@));
        assert(entry_views(m@) =~~= g);
    }
    m.push(("itemsetspell", "ItemSetSpell.dbd"));
    proof {
        g = g.push(("itemsetspell"@, "ItemSetSpell.dbd"@));
        assert(entry_views(m@) =~~= g);
    }
    m.push(("itemsparse", "ItemSparse.dbd"));
    proof {
        g = g.push(("itemsparse"@, "ItemSparse.dbd"@));
        assert(entry_views(m@) =~~= g);
    }
    m.push(("itemspec", "ItemSpec.dbd"));
    proof {
        g = g.push(("itemspec"@, "ItemSpec.dbd"@));
        assert(entry_views(m@) =~~= g);
    }
    m.push(("itemspecoverride", "ItemSpecOverride.dbd"));
    proof {
        g = g.push(("itemspecoverride"@, "ItemSpecOverride.dbd"@));
        assert(entry_views(m@) =~~= g);
    }
    m.push(("itemsquishera", "ItemSquishEra.dbd"));
    proof {
        g = g.push(("itemsquishera"@, "ItemSquishEra.dbd"@));
        assert(entry_views(m@) =~~= g);
    }
    m.push(("itemsubclass", "ItemSubClass.dbd"));
    proof {
        g = g.push(("itemsubclass"@, "ItemSubClass.dbd"@));
        assert(entry_views(m@) =~~= g);
    }
    m.push(("itemsubclassmask", "ItemSubClassMask.dbd"));
    proof {
        g = g.push(("itemsubclassmask"@, "ItemSubClassMask.dbd"@));
        assert(entry_views(m@) =~~= g);
    }
    m.push(("itemtobattlepet", "ItemToBattlePet.dbd"));
    proof {
        g = g.push(("itemtobattlepet"@, "ItemToBattlePet.dbd"@));
        assert(entry_views(m@) =~~= g);
        assert(m@.len() == 150);
    }
    m.push(("itemtomountspell", "ItemToMountSpell.dbd"));
    proof {
        g = g.push(("itemtomountspell"@, "ItemToMountSpell.dbd"@));
        assert(entry_views(m@) =~~= g);
    }
    m.push(("itemupgradepath", "ItemUpgradePath.dbd"));
    proof {
        g = g.push(("itemupgradepath"@, "ItemUpgradePath.dbd"@));
        assert(entry_views(m@) =~~= g);
    }
    m.push(("itemvisualeffects", "ItemVisualEffects.dbd"));
    proof {
        g = g.push(("itemvisualeffects"@, "ItemVisualEffects.dbd"@));
        assert(entry_views(m@) =~~= g);
    }
    m.push(("itemvisuals", "ItemVisuals.dbd"));
    proof {
        g = g.push(("itemvisuals"@, "ItemVisuals.dbd"@));
        assert(entry_views(m@) =~~= g);
    }
    m.push(("itemvisualsxeffect", "ItemVisualsXEffect.dbd"));
    proof {
        g = g.push(("itemvisualsxeffect"@, "ItemVisualsXEffect.dbd"@));
        assert(entry_views(m@) =~~= g);
    }
    m.push(("itemxbonustree", "ItemXBonusTree.dbd"));
    proof {
        g = g.push(("itemxbonustree"@, "ItemXBonusTree.dbd"@));
        assert(entry_views(m@) =~~= g);
    }
    m.push(("itemxitemeffect", "ItemXItemEffect.dbd"));
    proof {
        g = g.push(("itemxitemeffect"@, "ItemXItemEffect.dbd"@));
        assert(entry_views(m@) =~~= g);
    }
    m.push(("itemxtraitsystem", "ItemXTraitSystem.dbd"));
    proof {
        g = g.push(("itemxtraitsystem"@, "ItemXTraitSystem.dbd"@));
        assert(entry_views(m@) =~~= g);
    }
    m.push(("journalencounter", "JournalEncounter.dbd"));
    proof {
        g = g.push(("journalencounter"@, "JournalEncounter.dbd"@));
        assert(entry_views(m@) =~~= g);
    }
    m.push(("journalencountercreature", "JournalEncounterCreature.dbd"));
    proof {
        g = g.push(("journalencountercreature"@, "JournalEncounterCreature.dbd"@));
        assert(entry_views(m@) =~~= g);
    }
    m.push(("journalencounteritem", "JournalEncounterItem.dbd"));
    proof {
        g = g.push(("journalencounteritem"@, "JournalEncounterItem.dbd"@));
        assert(entry_views(m@) =~~= g);
    }
    m.push(("journalencountersection", "JournalEncounterSection.dbd"));
    proof {
        g = g.push(("journalencountersection"@, "JournalEncounterSection.dbd"@));
        assert(entry_views(m@) =~~= g);
    }
    m.push(("journalencounterxdifficulty", "JournalEncounterXDifficulty.dbd"));
    proof {
        g = g.push(("journalencounterxdifficulty"@, "JournalEncounterXDifficulty.dbd"@));
        assert(entry_views(m@) =~~= g);
    }
    m.push(("journalencounterxmaploc", "JournalEncounterXMapLoc.dbd"));
    proof {
        g = g.push(("journalencounterxmaploc"@, "JournalEncounterXMapLoc.dbd"@));
        assert(entry_views(m@) =~~= g);
    }
    m.push(("journalinstance", "JournalInstance.dbd"));
    proof {
        g = g.push(("journalinstance"@, "JournalInstance.dbd"@));
        assert(entry_views(m@) =~~= g);
    }
    m.push(("journalinstanceentrance", "JournalInstanceEntrance.dbd"));
    proof {
        g = g.push(("journalinstanceentrance"@, "JournalInstanceEntrance.dbd"@));
        assert(entry_views(m@) =~~= g);
    }
    m.push(("journalitemxdifficulty", "JournalItemXDifficulty.dbd"));
    proof {
        g = g.push(("journalitemxdifficulty"@, "JournalItemXDifficulty.dbd"@));
        assert(entry_views(m@) =~~= g);
    }
    m.push(("journalsectionxdifficulty", "JournalSectionXDifficulty.dbd"));
    proof {
        g = g.push(("journalsectionxdifficulty"@, "JournalSectionXDifficulty.dbd"@));
        assert(entry_views(m@) =~~= g);
    }
    m.push(("journaltier", "JournalTier.dbd"));
    proof {
        g = g.push(("journaltier"@, "JournalTier.dbd"@));
        assert(entry_views(m@) =~~= g);
    }
    m.push(("journaltierxinstance", "JournalTierXInstance.dbd"));
    proof {
        g = g.push(("journaltierxinstance"@, "JournalTierXInstance.dbd"@));
        assert(entry_views(m@) =~~= g);
    }
    m.push(("keychain", "Keychain.dbd"));
    proof {
        g = g.push(("keychain"@, "Keychain.dbd"@));
        assert(entry_views(m@) =~~= g);
    }
    m.push(("keystoneaffix", "KeystoneAffix.dbd"));
    proof {
        g = g.push(("keystoneaffix"@, "KeystoneAffix.dbd"@));
        assert(entry_views(m@) =~~= g);
    }
    m.push(("labelxcontentrestrictruleset", "LabelXContentRestrictRuleSet.dbd"));
    proof {
        g = g.push(("labelxcontentrestrictruleset"@, "LabelXContentRestrictRuleSet.dbd"@));
        assert(entry_views(m@) =~~= g);
    }
    m.push(("languages", "Languages.dbd"));
    proof {
        g = g.push(("languages"@, "Languages.dbd"@));
        assert(entry_views(m@) =~~= g);
    }
    m.push(("languagewords", "LanguageWords.dbd"));
    proof {
        g = g.push(("languagewords"@, "LanguageWords.dbd"@));
        assert(entry_views(m@) =~~= g);
    }
    m.push(("lfgdungeonexpansion", "LFGDungeonExpansion.dbd"));
    proof {
        g = g.push(("lfgdungeonexpansion"@, "LFGDungeonExpansion.dbd"@));
        assert(entry_views(m@) =~~= g);
    }
    m.push(("lfgdungeongroup", "LFGDungeonGroup.dbd"));
    proof {
        g = g.push(("lfgdungeongroup"@, "LFGDungeonGroup.dbd"@));
        assert(entry_views(m@) =~~= g);
    }
    m.push(("lfgdungeons", "LFGDungeons.dbd"));
    proof {
        g = g.push(("lfgdungeons"@, "LFGDungeons.dbd"@));
        assert(entry_views(m@) =~~= g);
    }
    m.push(("lfgdungeonsgroupingmap", "LfgDungeonsGroupingMap.dbd"));
    proof {
        g = g.push(("lfgdungeonsgroupingmap"@, "LfgDungeonsGroupingMap.dbd"@));
        assert(entry_views(m@) =~~= g);
    }
    m.push(("lfgrolerequirement", "LFGRoleRequirement.dbd"));
    proof {
        g = g.push(("lfgrolerequirement"@, "LFGRoleRequirement.dbd"@));
        assert(entry_views(m@) =~~= g);
        assert(m@.len() == 180);
    }
    m.push(("light", "Light.dbd"));
    proof {
        g = g.push(("light"@, "Light.dbd"@));
        assert(entry_views(m@) =~~= g);
    }
    m.push(("lightdata", "LightData.dbd"));
    proof {
        g = g.push(("lightdata"@, "LightData.dbd"@));
        assert(entry_views(m@) =~~= g);
    }
    m.push(("lightintband", "LightIntBand.dbd"));
    proof {
        g = g.push(("lightintband"@, "LightIntBand.dbd"@));
        assert(entry_views(m@) =~~= g);
    }
    m.push(("lightning", "Lightning.dbd"));
    proof {
        g = g.push(("lightning"@, "Lightning.dbd"@));
        assert(entry_views(m@) =~~= g);
    }
    m.push(("lightparams", "LightParams.dbd"));
    proof {
        g = g.push(("lightparams"@, "LightParams.dbd"@));
        assert(entry_views(m@) =~~= g);
    }
    m.push(("lightparamslightshaft", "LightParamsLightShaft.dbd"));
    proof {
        g = g.push(("lightparamslightshaft"@, "LightParamsLightShaft.dbd"@));
        assert(entry_views(m@) =~~= g);
    }
    m.push(("lightshaft", "LightShaft.dbd"));
    proof {
        g = g.push(("lightshaft"@, "LightShaft.dbd"@));
        assert(entry_views(m@) =~~= g);
    }
    m.push(("lightskybox", "LightSkybox.dbd"));
    proof {
        g = g.push(("lightskybox"@, "LightSkybox.dbd"@));
        assert(entry_views(m@) =~~= g);
    }
    m.push(("lightworldshadow", "LightWorldShadow.dbd"));
    proof {
        g = g.push(("lightworldshadow"@, "LightWorldShadow.dbd"@));
        assert(entry_views(m@) =~~= g);
    }
    m.push(("liquidmaterial", "LiquidMaterial.dbd"));
    proof {
        g = g.push(("liquidmaterial"@, "LiquidMaterial.dbd"@));
        assert(entry_views(m@) =~~= g);
    }
    m.push(("liquidobject", "LiquidObject.dbd"));
    proof {
        g = g.push(("liquidobject"@, "LiquidObject.dbd"@));
        assert(entry_views(m@) =~~= g);
    }
    m.push(("liquidtype", "LiquidType.dbd"));
    proof {
        g = g.push(("liquidtype"@, "LiquidType.dbd"@));
        assert(entry_views(m@) =~~= g);
    }
    m.push(("liquidtypextexture", "LiquidTypeXTexture.dbd"));
    proof {
        g = g.push(("liquidtypextexture"@, "LiquidTypeXTexture.dbd"@));
        assert(entry_views(m@) =~~= g);
    }
    m.push(("livingworldobjecttemplate", "LivingWorldObjectTemplate.dbd"));
    proof {
        g = g.push(("livingworldobjecttemplate"@, "LivingWorldObjectTemplate.dbd"@));
        assert(entry_views(m@) =~~= g);
    }
    m.push(("livingworldobjecttemplatemodel", "LivingWorldObjectTemplateModel.dbd"));
    proof {
        g = g.push(("livingworldobjecttemplatemodel"@, "LivingWorldObjectTemplateModel.dbd"@));
        assert(entry_views(m@) =~~= g);
    }
    m.push(("loadingscreens", "LoadingScreens.dbd"));
    proof {
        g = g.push(("loadingscreens"@, "LoadingScreens.dbd"@));
        assert(entry_views(m@) =~~= g);
    }
    m.push(("loadingscreenskin", "LoadingScreenSkin.dbd"));
    proof {
        g = g.push(("loadingscreenskin"@, "LoadingScreenSkin.dbd"@));
        assert(entry_views(m@) =~~= g);
    }
    m.push(("loadingscreentaxisplines", "LoadingScreenTaxiSplines.dbd"));
    proof {
        g = g.push(("loadingscreentaxisplines"@, "LoadingScreenTaxiSplines.dbd"@));
        assert(entry_views(m@) =~~= g);
    }
    m.push(("location", "Location.dbd"));
    proof {
        g = g.push(("location"@, "Location.dbd"@));
        assert(entry_views(m@) =~~= g);
    }
    m.push(("lock", "Lock.dbd"));
    proof {
        g = g.push(("lock"@, "Lock.dbd"@));
        assert(entry_views(m@) =~~= g);
    }
    m.push(("locktype", "LockType.dbd"));
    proof {
        g = g.push(("locktype"@, "LockType.dbd"@));
        assert(entry_views(m@) =~~= g);
    }
    m.push(("lookatcontroller", "LookAtController.dbd"));
    proof {
        g = g.push(("lookatcontroller"@, "LookAtController.dbd"@));
        assert(entry_views(m@) =~~= g);
    }
    m.push(("loretext", "LoreText.dbd"));
    proof {
        g = g.push(("loretext"@, "LoreText.dbd"@));
        assert(entry_views(m@) =~~= g);
    }
    m.push(("loretextpublic", "LoreTextPublic.dbd"));
    proof {
        g = g.push(("loretextpublic"@, "LoreTextPublic.dbd"@));
        assert(entry_views(m@) =~~= g);
    }
    m.push(("mailtemplate", "MailTemplate.dbd"));
    proof {
        g = g.push(("mailtemplate"@, "MailTemplate.dbd"@));
        assert(entry_views(m@) =~~= g);
    }
    m.push(("managedworldstate", "ManagedWorldState.dbd"));
    proof {
        g = g.push(("managedworldstate"@, "ManagedWorldState.dbd"@));
        assert(entry_views(m@) =~~= g);
    }
    m.push(("managedworldstatebuff", "ManagedWorldStateBuff.dbd"));
    proof {
        g = g.push(("managedworldstatebuff"@, "ManagedWorldStateBuff.dbd"@));
        assert(entry_views(m@) =~~= g);
    }
    m.push(("managedworldstateinput", "ManagedWorldStateInput.dbd"));
    proof {
        g = g.push(("managedworldstateinput"@, "ManagedWorldStateInput.dbd"@));
        assert(entry_views(m@) =~~= g);
    }
    m.push(("manifestinterfaceactionicon", "ManifestInterfaceActionIcon.dbd"));
    proof {
        g = g.push(("manifestinterfaceactionicon"@, "ManifestInterfaceActionIcon.dbd"@));
        assert(entry_views(m@) =~~= g);
    }
    m.push(("manifestinterfacedata", "ManifestInterfaceData.dbd"));
    proof {
        g = g.push(("manifestinterfacedata"@, "ManifestInterfaceData.dbd"@));
        assert(entry_views(m@) =~~= g);
        assert(m@.len() == 210);
    }
    proof {
        reveal(catalog_data_c);
        assert(g == catalog_data_c());
    }
    m
}

/// One slice of the embedded catalog data; it carries exactly the
/// pairs its specification-level slice states.
fn catalog_entries_d() -> (m: Vec<(&'static str, &'static str)>)
    ensures
        m@.len() == 210,
        entry_views(m@) == catalog_data_d(),
{
    let mut m: Vec<(&'static str, &'static str)> = Vec::new();
    let ghost mut g: Seq<(Seq<char>, Seq<char>)> = Seq::empty();
    proof {
        assert(entry_views(m@) =~~= g);
    }
    m.push(("manifestinterfaceitemicon", "ManifestInterfaceItemIcon.dbd"));
    proof {
        g = g.push(("manifestinterfaceitemicon"@, "ManifestInterfaceItemIcon.dbd"@));
        assert(entry_views(m@) =~~= g);
    }
    m.push(("manifestinterfacetocdata", "ManifestInterfaceTOCData.dbd"));
    proof {
        g = g.push(("manifestinterfacetocdata"@, "ManifestInterfaceTOCData.dbd"@));
        assert(entry_views(m@) =~~= g);
    }
    m.push(("manifestmp3", "ManifestMP3.dbd"));
    proof {
        g = g.push(("manifestmp3"@, "ManifestMP3.dbd"@));
        assert(entry_views(m@) =~~= g);
    }
    m.push(("map", "Map.dbd"));
    proof {
        g = g.push(("map"@, "Map.dbd"@));
        assert(entry_views(m@) =~~= g);
    }
    m.push(("mapchallengemode", "MapChallengeMode.dbd"));
    proof {
        g = g.push(("mapchallengemode"@, "MapChallengeMode.dbd"@));
        assert(entry_views(m@) =~~= g);
    }
    m.push(("mapchallengemodeaffixcriteria", "MapChallengeModeAffixCriteria.dbd"));
    proof {
        g = g.push(("mapchallengemodeaffixcriteria"@, "MapChallengeModeAffixCriteria.dbd"@));
        assert(entry_views(m@) =~~= g);
    }
    m.push(("mapdifficulty", "MapDifficulty.dbd"));
    proof {
        g = g.push(("mapdifficulty"@, "MapDifficulty.dbd"@));
        assert(entry_views(m@) =~~= g);
    }
    m.push(("mapdifficultyredirect", "MapDifficultyRedirect.dbd"));
    proof {
        g = g.push(("mapdifficultyredirect"@, "MapDifficultyRedirect.dbd"@));
        assert(entry_views(m@) =~~= g);
    }
    m.push(("mapdifficultyxcondition", "MapDifficultyXCondition.dbd"));
    proof {
        g = g.push(("mapdifficultyxcondition"@, "MapDifficultyXCondition.dbd"@));
        assert(entry_views(m@) =~~= g);
    }
    m.push(("maploadingscreen", "MapLoadingScreen.dbd"));
    proof {
        g = g.push(("maploadingscreen"@, "MapLoadingScreen.dbd"@));
        assert(entry_views(m@) =~~= g);
    }
    m.push(("maprenderscale", "MapRenderScale.dbd"));
    proof {
        g = g.push(("maprenderscale"@, "MapRenderScale.dbd"@));
        assert(entry_views(m@) =~~= g);
    }
    m.push(("marketingpromotionsxlocale", "MarketingPromotionsXLocale.dbd"));
    proof {
        g = g.push(("marketingpromotionsxlocale"@, "MarketingPromotionsXLocale.dbd"@));
        assert(entry_views(m@) =~~= g);
    }
    m.push(("material", "Material.dbd"));
    proof {
        g = g.push(("material"@, "Material.dbd"@));
        assert(entry_views(m@) =~~= g);
    }
    m.push(("mawpower", "MawPower.dbd"));
    proof {
        g = g.push(("mawpower"@, "MawPower.dbd"@));
        assert(entry_views(m@) =~~= g);
    }
    m.push(("mawpowerrarity", "MawPowerRarity.dbd"));
    proof {
        g = g.push(("mawpowerrarity"@, "MawPowerRarity.dbd"@));
        assert(entry_views(m@) =~~= g);
    }
    m.push(("mcrslotxmcrcategory", "MCRSlotXMCRCategory.dbd"));
    proof {
        g = g.push(("mcrslotxmcrcategory"@, "MCRSlotXMCRCategory.dbd"@));
        assert(entry_views(m@) =~~= g);
    }
    m.push(("minortalent", "MinorTalent.dbd"));
    proof {
        g = g.push(("minortalent"@, "MinorTalent.dbd"@));
        assert(entry_views(m@) =~~= g);
    }
    m.push(("missiletargeting", "MissileTargeting.dbd"));
    proof {
        g = g.push(("missiletargeting"@, "MissileTargeting.dbd"@));
        assert(entry_views(m@) =~~= g);
    }
    m.push(("mobilestrings", "MobileStrings.dbd"));
    proof {
        g = g.push(("mobilestrings"@, "MobileStrings.dbd"@));
        assert(entry_views(m@) =~~= g);
    }
    m.push(("modelfiledata", "ModelFileData.dbd"));
    proof {
        g = g.push(("modelfiledata"@, "ModelFileData.dbd"@));
        assert(entry_views(m@) =~~= g);
    }
    m.push(("modelmanifest", "ModelManifest.dbd"));
    proof {
        g = g.push(("modelmanifest"@, "ModelManifest.dbd"@));
        assert(entry_views(m@) =~~= g);
    }
    m.push(("modelnametomanifest", "ModelNameToManifest.dbd"));
    proof {
        g = g.push(("modelnametomanifest"@, "ModelNameToManifest.dbd"@));
        assert(entry_views(m@) =~~= g);
    }
    m.push(("modelribbonquality", "ModelRibbonQuality.dbd"));
    proof {
        g = g.push(("modelribbonquality"@, "ModelRibbonQuality.dbd"@));
        assert(entry_views(m@) =~~= g);
    }
    m.push(("modelsound", "ModelSound.dbd"));
    proof {
        g = g.push(("modelsound"@, "ModelSound.dbd"@));
        assert(entry_views(m@) =~~= g);
    }
    m.push(("modelsoundanimentry", "ModelSoundAnimEntry.dbd"));
    proof {
        g = g.push(("modelsoundanimentry"@, "ModelSoundAnimEntry.dbd"@));
        assert(entry_views(m@) =~~= g);
    }
    m.push(("modelsoundentry", "ModelSoundEntry.dbd"));
    proof {
        g = g.push(("modelsoundentry"@, "ModelSoundEntry.dbd"@));
        assert(entry_views(m@) =~~= g);
    }
    m.push(("modelsoundoverride", "ModelSoundOverride.dbd"));
    proof {
        g = g.push(("modelsoundoverride"@, "ModelSoundOverride.dbd"@));
        assert(entry_views(m@) =~~= g);
    }
    m.push(("modelsoundoverridename", "ModelSoundOverrideName.dbd"));
    proof {
        g = g.push(("modelsoundoverridename"@, "ModelSoundOverrideName.dbd"@));
        assert(entry_views(m@) =~~= g);
    }
    m.push(("modelsoundsettings", "ModelSoundSettings.dbd"));
    proof {
        g = g.push(("modelsoundsettings"@, "ModelSoundSettings.dbd"@));
        assert(entry_views(m@) =~~= g);
    }
    m.push(("modelsoundtagentry", "ModelSoundTagEntry.dbd"));
    proof {
        g = g.push(("modelsoundtagentry"@, "ModelSoundTagEntry.dbd"@));
        assert(entry_views(m@) =~~= g);
        assert(m@.len() == 30);
    }
    m.push(("modifiedcraftingcategory", "ModifiedCraftingCategory.dbd"));
    proof {
        g = g.push(("modifiedcraftingcategory"@, "ModifiedCraftingCategory.dbd"@));
        assert(entry_views(m@) =~~= g);
    }
    m.push(("modifiedcraftingitem", "ModifiedCraftingItem.dbd"));
    proof {
        g = g.push(("modifiedcraftingitem"@, "ModifiedCraftingItem.dbd"@));
        assert(entry_views(m@) =~~= g);
    }
    m.push(("modifiedcraftingreagentitem", "ModifiedCraftingReagentItem.dbd"));
    proof {
        g = g.push(("modifiedcraftingreagentitem"@, "ModifiedCraftingReagentItem.dbd"@));
        assert(entry_views(m@) =~~= g);
    }
    m.push(("modifiedcraftingreagentslot", "ModifiedCraftingReagentSlot.dbd"));
    proof {
        g = g.push(("modifiedcraftingreagentslot"@, "ModifiedCraftingReagentSlot.dbd"@));
        assert(entry_views(m@) =~~= g);
    }
    m.push(("modifiedreagentitem", "ModifiedReagentItem.dbd"));
    proof {
        g = g.push(("modifiedreagentitem"@, "ModifiedReagentItem.dbd"@));
        assert(entry_views(m@) =~~= g);
    }
    m.push(("modifiertree", "ModifierTree.dbd"));
    proof {
        g = g.push(("modifiertree"@, "ModifierTree.dbd"@));
        assert(entry_views(m@) =~~= g);
    }
    m.push(("mount", "Mount.dbd"));
    proof {
        g = g.push(("mount"@, "Mount.dbd"@));
        assert(entry_views(m@) =~~= g);
    }
    m.push(("mountcapability", "MountCapability.dbd"));
    proof {
        g = g.push(("mountcapability"@, "MountCapability.dbd"@));
        assert(entry_views(m@) =~~= g);
    }
    m.push(("mountequipment", "MountEquipment.dbd"));
    proof {
        g = g.push(("mountequipment"@, "MountEquipment.dbd"@));
        assert(entry_views(m@) =~~= g);
    }
    m.push(("mounttype", "MountType.dbd"));
    proof {
        g = g.push(("mounttype"@, "MountType.dbd"@));
        assert(entry_views(m@) =~~= g);
    }
    m.push(("mounttypexcapability", "MountTypeXCapability.dbd"));
    proof {
        g = g.push(("mounttypexcapability"@, "MountTypeXCapability.dbd"@));
        assert(entry_views(m@) =~~= g);
    }
    m.push(("mountxdisplay", "MountXDisplay.dbd"));
    proof {
        g = g.push(("mountxdisplay"@, "MountXDisplay.dbd"@));
        assert(entry_views(m@) =~~= g);
    }
    m.push(("mountxspellvisualkitpicker", "MountXSpellVisualKitPicker.dbd"));
    proof {
        g = g.push(("mountxspellvisualkitpicker"@, "MountXSpellVisualKitPicker.dbd"@));
        assert(entry_views(m@) =~~= g);
    }
    m.push(("movie", "Movie.dbd"));
    proof {
        g = g.push(("movie"@, "Movie.dbd"@));
        assert(entry_views(m@) =~~= g);
    }
    m.push(("moviefiledata", "MovieFileData.dbd"));
    proof {
        g = g.push(("moviefiledata"@, "MovieFileData.dbd"@));
        assert(entry_views(m@) =~~= g);
    }
    m.push(("movieoverlays", "MovieOverlays.dbd"));
    proof {
        g = g.push(("movieoverlays"@, "MovieOverlays.dbd"@));
        assert(entry_views(m@) =~~= g);
    }
    m.push(("movievariation", "MovieVariation.dbd"));
    proof {
        g = g.push(("movievariation"@, "MovieVariation.dbd"@));
        assert(entry_views(m@) =~~= g);
    }
    m.push(("multistateproperties", "MultiStateProperties.dbd"));
    proof {
        g = g.push(("multistateproperties"@, "MultiStateProperties.dbd"@));
        assert(entry_views(m@) =~~= g);
    }
    m.push(("multitransitionproperties", "MultiTransitionProperties.dbd"));
    proof {
        g = g.push(("multitransitionproperties"@, "MultiTransitionProperties.dbd"@));
        assert(entry_views(m@) =~~= g);
    }
    m.push(("mythicplusseason", "MythicPlusSeason.dbd"));
    proof {
        g = g.push(("mythicplusseason"@, "MythicPlusSeason.dbd"@));
        assert(entry_views(m@) =~~= g);
    }
    m.push(("mythicplusseasonkeyfloor", "MythicPlusSeasonKeyFloor.dbd"));
    proof {
        g = g.push(("mythicplusseasonkeyfloor"@, "MythicPlusSeasonKeyFloor.dbd"@));
        assert(entry_views(m@) =~~= g);
    }
    m.push(("mythicplusseasonrewardlevels", "MythicPlusSeasonRewardLevels.dbd"));
    proof {
        g = g.push(("mythicplusseasonrewardlevels"@, "MythicPlusSeasonRewardLevels.dbd"@));
        assert(entry_views(m@) =~~= g);
    }
    m.push(("mythicplusseasontrackedaffix", "MythicPlusSeasonTrackedAffix.dbd"));
    proof {
        g = g.push(("mythicplusseasontrackedaffix"@, "MythicPlusSeasonTrackedAffix.dbd"@));
        assert(entry_views(m@) =~~= g);
    }
    m.push(("mythicplusseasontrackedmap", "MythicPlusSeasonTrackedMap.dbd"));
    proof {
        g = g.push(("mythicplusseasontrackedmap"@, "MythicPlusSeasonTrackedMap.dbd"@));
        assert(entry_views(m@) =~~= g);
    }
    m.push(("namegen", "NameGen.dbd"));
    proof {
        g = g.push(("namegen"@, "NameGen.dbd"@));
        assert(entry_views(m@) =~~= g);
    }
    m.push(("namesprofanity", "NamesProfanity.dbd"));
    proof {
        g = g.push(("namesprofanity"@, "NamesProfanity.dbd"@));
        assert(entry_views(m@) =~~= g);
    }
    m.push(("namesreserved", "NamesReserved.dbd"));
    proof {
        g = g.push(("namesreserved"@, "NamesReserved.dbd"@));
        assert(entry_views(m@) =~~= g);
    }
    m.push(("namesreservedlocale", "NamesReservedLocale.dbd"));
    proof {
        g = g.push(("namesreservedlocale"@, "NamesReservedLocale.dbd"@));
        assert(entry_views(m@) =~~= g);
    }
    m.push(("npccraftingordercustomer", "NPCCraftingOrderCustomer.dbd"));
    proof {
        g = g.push(("npccraftingordercustomer"@, "NPCCraftingOrderCustomer.dbd"@));
        assert(entry_views(m@) =~~= g);
    }
    m.push(("npccraftingordercustomerxlabel", "NPCCraftingOrderCustomerXLabel.dbd"));
    proof {
        g = g.push(("npccraftingordercustomerxlabel"@, "NPCCraftingOrderCustomerXLabel.dbd"@));
        assert(entry_views(m@) =~~= g);
        assert(m@.len() == 60);
    }
    m.push(("npccraftingorderset", "NPCCraftingOrderSet.dbd"));
    proof {
        g = g.push(("npccraftingorderset"@, "NPCCraftingOrderSet.dbd"@));
        assert(entry_views(m@) =~~= g);
    }
    m.push(("npccraftingordersetxcraftorder", "NPCCraftingOrderSetXCraftOrder.dbd"));
    proof {
        g = g.push(("npccraftingordersetxcraftorder"@, "NPCCraftingOrderSetXCraftOrder.dbd"@));
        assert(entry_views(m@) =~~= g);
    }
    m.push(("npccraftingordersetxcustomer", "NPCCraftingOrderSetXCustomer.dbd"));
    proof {
        g = g.push(("npccraftingordersetxcustomer"@, "NPCCraftingOrderSetXCustomer.dbd"@));
        assert(entry_views(m@) =~~= g);
    }
    m.push(("npccraftingordersetxtreasure", "NPCCraftingOrderSetXTreasure.dbd"));
    proof {
        g = g.push(("npccraftingordersetxtreasure"@, "NPCCraftingOrderSetXTreasure.dbd"@));
        assert(entry_views(m@) =~~= g);
    }
    m.push(("npcsounds", "NPCSounds.dbd"));
    proof {
        g = g.push(("npcsounds"@, "NPCSounds.dbd"@));
        assert(entry_views(m@) =~~= g);
    }
    m.push(("numtalentsatlevel", "NumTalentsAtLevel.dbd"));
    proof {
        g = g.push(("numtalentsatlevel"@, "NumTalentsAtLevel.dbd"@));
        assert(entry_views(m@) =~~= g);
    }
    m.push(("objecteffect", "ObjectEffect.dbd"));
    proof {
        g = g.push(("objecteffect"@, "ObjectEffect.dbd"@));
        assert(entry_views(m@) =~~= g);
    }
    m.push(("objecteffectgroup", "ObjectEffectGroup.dbd"));
    proof {
        g = g.push(("objecteffectgroup"@, "ObjectEffectGroup.dbd"@));
        assert(entry_views(m@) =~~= g);
    }
    m.push(("objecteffectmodifier", "ObjectEffectModifier.dbd"));
    proof {
        g = g.push(("objecteffectmodifier"@, "ObjectEffectModifier.dbd"@));
        assert(entry_views(m@) =~~= g);
    }
    m.push(("objecteffectpackage", "ObjectEffectPackage.dbd"));
    proof {
        g = g.push(("objecteffectpackage"@, "ObjectEffectPackage.dbd"@));
        assert(entry_views(m@) =~~= g);
    }
    m.push(("objecteffectpackageelem", "ObjectEffectPackageElem.dbd"));
    proof {
        g = g.push(("objecteffectpackageelem"@, "ObjectEffectPackageElem.dbd"@));
        assert(entry_views(m@) =~~= g);
    }
    m.push(("objecteffectstatename", "ObjectEffectStateName.dbd"));
    proof {
        g = g.push(("objecteffectstatename"@, "ObjectEffectStateName.dbd"@));
        assert(entry_views(m@) =~~= g);
    }
    m.push(("occluder", "Occluder.dbd"));
    proof {
        g = g.push(("occluder"@, "Occluder.dbd"@));
        assert(entry_views(m@) =~~= g);
    }
    m.push(("occludercurtain", "OccluderCurtain.dbd"));
    proof {
        g = g.push(("occludercurtain"@, "OccluderCurtain.dbd"@));
        assert(entry_views(m@) =~~= g);
    }
    m.push(("occluderlocation", "OccluderLocation.dbd"));
    proof {
        g = g.push(("occluderlocation"@, "OccluderLocation.dbd"@));
        assert(entry_views(m@) =~~= g);
    }
    m.push(("occludernode", "OccluderNode.dbd"));
    proof {
        g = g.push(("occludernode"@, "OccluderNode.dbd"@));
        assert(entry_views(m@) =~~= g);
    }
    m.push(("outlineeffect", "OutlineEffect.dbd"));
    proof {
        g = g.push(("outlineeffect"@, "OutlineEffect.dbd"@));
        assert(entry_views(m@) =~~= g);
    }
    m.push(("overridespelldata", "OverrideSpellData.dbd"));
    proof {
        g = g.push(("overridespelldata"@, "OverrideSpellData.dbd"@));
        assert(entry_views(m@) =~~= g);
    }
    m.push(("package", "Package.dbd"));
    proof {
        g = g.push(("package"@, "Package.dbd"@));
        assert(entry_views(m@) =~~= g);
    }
    m.push(("pagetextmaterial", "PageTextMaterial.dbd"));
    proof {
        g = g.push(("pagetextmaterial"@, "PageTextMaterial.dbd"@));
        assert(entry_views(m@) =~~= g);
    }
    m.push(("paragonreputation", "ParagonReputation.dbd"));
    proof {
        g = g.push(("paragonreputation"@, "ParagonReputation.dbd"@));
        assert(entry_views(m@) =~~= g);
    }
    m.push(("particlecolor", "ParticleColor.dbd"));
    proof {
        g = g.push(("particlecolor"@, "ParticleColor.dbd"@));
        assert(entry_views(m@) =~~= g);
    }
    m.push(("particulate", "Particulate.dbd"));
    proof {
        g = g.push(("particulate"@, "Particulate.dbd"@));
        assert(entry_views(m@) =~~= g);
    }
    m.push(("particulatesound", "ParticulateSound.dbd"));
    proof {
        g = g.push(("particulatesound"@, "ParticulateSound.dbd"@));
        assert(entry_views(m@) =~~= g);
    }
    m.push(("path", "Path.dbd"));
    proof {
        g = g.push(("path"@, "Path.dbd"@));
        assert(entry_views(m@) =~~= g);
    }
    m.push(("pathedge", "PathEdge.dbd"));
    proof {
        g = g.push(("pathedge"@, "PathEdge.dbd"@));
        assert(entry_views(m@) =~~= g);
    }
    m.push(("pathnode", "PathNode.dbd"));
    proof {
        g = g.push(("pathnode"@, "PathNode.dbd"@));
        assert(entry_views(m@) =~~= g);
    }
    m.push(("pathnodeproperty", "PathNodeProperty.dbd"));
    proof {
        g = g.push(("pathnodeproperty"@, "PathNodeProperty.dbd"@));
        assert(entry_views(m@) =~~= g);
    }
    m.push(("pathproperty", "PathProperty.dbd"));
    proof {
        g = g.push(("pathproperty"@, "PathProperty.dbd"@));
        assert(entry_views(m@) =~~= g);
    }
    m.push(("perksactivity", "PerksActivity.dbd"));
    proof {
        g = g.push(("perksactivity"@, "PerksActivity.dbd"@));
        assert(entry_views(m@) =~~= g);
        assert(m@.len() == 90);
    }
    m.push(("perksactivitycondition", "PerksActivityCondition.dbd"));
    proof {
        g = g.push(("perksactivitycondition"@, "PerksActivityCondition.dbd"@));
        assert(entry_views(m@) =~~= g);
    }
    m.push(("perksactivitytag", "PerksActivityTag.dbd"));
    proof {
        g = g.push(("perksactivitytag"@, "PerksActivityTag.dbd"@));
        assert(entry_views(m@) =~~= g);
    }
    m.push(("perksactivitythreshold", "PerksActivityThreshold.dbd"));
    proof {
        g = g.push(("perksactivitythreshold"@, "PerksActivityThreshold.dbd"@));
        assert(entry_views(m@) =~~= g);
    }
    m.push(("perksactivitythresholdgroup", "PerksActivityThresholdGroup.dbd"));
    proof {
        g = g.push(("perksactivitythresholdgroup"@, "PerksActivityThresholdGroup.dbd"@));
        assert(entry_views(m@) =~~= g);
    }
    m.push(("perksactivityxholidays", "PerksActivityXHolidays.dbd"));
    proof {
        g = g.push(("perksactivityxholidays"@, "PerksActivityXHolidays.dbd"@));
        assert(entry_views(m@) =~~= g);
    }
    m.push(("perksactivityxinterval", "PerksActivityXInterval.dbd"));
    proof {
        g = g.push(("perksactivityxinterval"@, "PerksActivityXInterval.dbd"@));
        assert(entry_views(m@) =~~= g);
    }
    m.push(("perksuitheme", "PerksUITheme.dbd"));
    proof {
        g = g.push(("perksuitheme"@, "PerksUITheme.dbd"@));
        assert(entry_views(m@) =~~= g);
    }
    m.push(("perksvendorcategory", "PerksVendorCategory.dbd"));
    proof {
        g = g.push(("perksvendorcategory"@, "PerksVendorCategory.dbd"@));
        assert(entry_views(m@) =~~= g);
    }
    m.push(("perksvendoritem", "PerksVendorItem.dbd"));
    proof {
        g = g.push(("perksvendoritem"@, "PerksVendorItem.dbd"@));
        assert(entry_views(m@) =~~= g);
    }
    m.push(("perksvendoritemuigroup", "PerksVendorItemUIGroup.dbd"));
    proof {
        g = g.push(("perksvendoritemuigroup"@, "PerksVendorItemUIGroup.dbd"@));
        assert(entry_views(m@) =~~= g);
    }
    m.push(("perksvendoritemuiinfo", "PerksVendorItemUIInfo.dbd"));
    proof {
        g = g.push(("perksvendoritemuiinfo"@, "PerksVendorItemUIInfo.dbd"@));
        assert(entry_views(m@) =~~= g);
    }
    m.push(("perksvendoritemxinterval", "PerksVendorItemXInterval.dbd"));
    proof {
        g = g.push(("perksvendoritemxinterval"@, "PerksVendorItemXInterval.dbd"@));
        assert(entry_views(m@) =~~= g);
    }
    m.push(("petitiontype", "PetitionType.dbd"));
    proof {
        g = g.push(("petitiontype"@, "PetitionType.dbd"@));
        assert(entry_views(m@) =~~= g);
    }
    m.push(("petloyalty", "PetLoyalty.dbd"));
    proof {
        g = g.push(("petloyalty"@, "PetLoyalty.dbd"@));
        assert(entry_views(m@) =~~= g);
    }
    m.push(("petpersonality", "PetPersonality.dbd"));
    proof {
        g = g.push(("petpersonality"@, "PetPersonality.dbd"@));
        assert(entry_views(m@) =~~= g);
    }
    m.push(("phase", "Phase.dbd"));
    proof {
        g = g.push(("phase"@, "Phase.dbd"@));
        assert(entry_views(m@) =~~= g);
    }
    m.push(("phaseshiftzonesounds", "PhaseShiftZoneSounds.dbd"));
    proof {
        g = g.push(("phaseshiftzonesounds"@, "PhaseShiftZoneSounds.dbd"@));
        assert(entry_views(m@) =~~= g);
    }
    m.push(("phasexphasegroup", "PhaseXPhaseGroup.dbd"));
    proof {
        g = g.push(("phasexphasegroup"@, "PhaseXPhaseGroup.dbd"@));
        assert(entry_views(m@) =~~= g);
    }
    m.push(("pingtype", "PingType.dbd"));
    proof {
        g = g.push(("pingtype"@, "PingType.dbd"@));
        assert(entry_views(m@) =~~= g);
    }
    m.push(("playercompanioninfo", "PlayerCompanionInfo.dbd"));
    proof {
        g = g.push(("playercompanioninfo"@, "PlayerCompanionInfo.dbd"@));
        assert(entry_views(m@) =~~= g);
    }
    m.push(("playercondition", "PlayerCondition.dbd"));
    proof {
        g = g.push(("playercondition"@, "PlayerCondition.dbd"@));
        assert(entry_views(m@) =~~= g);
    }
    m.push(("itemchildequipment", "ItemChildEquipment.dbd"));
    proof {
        g = g.push(("itemchildequipment"@, "ItemChildEquipment.dbd"@));
        assert(entry_views(m@) =~~= g);
    }
    m.push(("itemdamagetwohand", "ItemDamageTwoHand.dbd"));
    proof {
        g = g.push(("itemdamagetwohand"@, "ItemDamageTwoHand.dbd"@));
        assert(entry_views(m@) =~~= g);
    }
    m.push(("itemlevelselectorquality", "ItemLevelSelectorQuality.dbd"));
    proof {
        g = g.push(("itemlevelselectorquality"@, "ItemLevelSelectorQuality.dbd"@));
        assert(entry_views(m@) =~~= g);
    }
    m.push(("itemrangeddisplayinfo", "ItemRangedDisplayInfo.dbd"));
    proof {
        g = g.push(("itemrangeddisplayinfo"@, "ItemRangedDisplayInfo.dbd"@));
        assert(entry_views(m@) =~~= g);
    }
    m.push(("itemupgrade", "ItemUpgrade.dbd"));
    proof {
        g = g.push(("itemupgrade"@, "ItemUpgrade.dbd"@));
        assert(entry_views(m@) =~~= g);
    }
    m.push(("journalinstancequeueloc", "JournalInstanceQueueLoc.dbd"));
    proof {
        g = g.push(("journalinstancequeueloc"@, "JournalInstanceQueueLoc.dbd"@));
        assert(entry_views(m@) =~~= g);
    }
    m.push(("lightfloatband", "LightFloatBand.dbd"));
    proof {
        g = g.push(("lightfloatband"@, "LightFloatBand.dbd"@));
        assert(entry_views(m@) =~~= g);
    }
    m.push(("locale", "Locale.dbd"));
    proof {
        g = g.push(("locale"@, "Locale.dbd"@));
        assert(entry_views(m@) =~~= g);
    }
    m.push(("mapcelestialbody", "MapCelestialBody.dbd"));
    proof {
        g = g.push(("mapcelestialbody"@, "MapCelestialBody.dbd"@));
        assert(entry_views(m@) =~~= g);
        assert(m@.len() == 120);
    }
    m.push(("modelanimcloakdampening", "ModelAnimCloakDampening.dbd"));
    proof {
        g = g.push(("modelanimcloakdampening"@, "ModelAnimCloakDampening.dbd"@));
        assert(entry_views(m@) =~~= g);
    }
    m.push(("modifiedcraftingspellslot", "ModifiedCraftingSpellSlot.dbd"));
    proof {
        g = g.push(("modifiedcraftingspellslot"@, "ModifiedCraftingSpellSlot.dbd"@));
        assert(entry_views(m@) =~~= g);
    }
    m.push(("musicoverride", "MusicOverride.dbd"));
    proof {
        g = g.push(("musicoverride"@, "MusicOverride.dbd"@));
        assert(entry_views(m@) =~~= g);
    }
    m.push(("npcmodelitemslotdisplayinfo", "NPCModelItemSlotDisplayInfo.dbd"));
    proof {
        g = g.push(("npcmodelitemslotdisplayinfo"@, "NPCModelItemSlotDisplayInfo.dbd"@));
        assert(entry_views(m@) =~~= g);
    }
    m.push(("paperdollitemframe", "PaperDollItemFrame.dbd"));
    proof {
        g = g.push(("paperdollitemframe"@, "PaperDollItemFrame.dbd"@));
        assert(entry_views(m@) =~~= g);
    }
    m.push(("playerdataelementcharacter", "PlayerDataElementCharacter.dbd"));
    proof {
        g = g.push(("playerdataelementcharacter"@, "PlayerDataElementCharacter.dbd"@));
        assert(entry_views(m@) =~~= g);
    }
    m.push(("playerdataflagaccount", "PlayerDataFlagAccount.dbd"));
    proof {
        g = g.push(("playerdataflagaccount"@, "PlayerDataFlagAccount.dbd"@));
        assert(entry_views(m@) =~~= g);
    }
    m.push(("playerdataflagcharacter", "PlayerDataFlagCharacter.dbd"));
    proof {
        g = g.push(("playerdataflagcharacter"@, "PlayerDataFlagCharacter.dbd"@));
        assert(entry_views(m@) =~~= g);
    }
    m.push(("playerinteractioninfo", "PlayerInteractionInfo.dbd"));
    proof {
        g = g.push(("playerinteractioninfo"@, "PlayerInteractionInfo.dbd"@));
        assert(entry_views(m@) =~~= g);
    }
    m.push(("pointlightconditionmap", "PointLightConditionMap.dbd"));
    proof {
        g = g.push(("pointlightconditionmap"@, "PointLightConditionMap.dbd"@));
        assert(entry_views(m@) =~~= g);
    }
    m.push(("positioner", "Positioner.dbd"));
    proof {
        g = g.push(("positioner"@, "Positioner.dbd"@));
        assert(entry_views(m@) =~~= g);
    }
    m.push(("positionerstate", "PositionerState.dbd"));
    proof {
        g = g.push(("positionerstate"@, "PositionerState.dbd"@));
        assert(entry_views(m@) =~~= g);
    }
    m.push(("positionerstateentry", "PositionerStateEntry.dbd"));
    proof {
        g = g.push(("positionerstateentry"@, "PositionerStateEntry.dbd"@));
        assert(entry_views(m@) =~~= g);
    }
    m.push(("powerdisplay", "PowerDisplay.dbd"));
    proof {
        g = g.push(("powerdisplay"@, "PowerDisplay.dbd"@));
        assert(entry_views(m@) =~~= g);
    }
    m.push(("powertype", "PowerType.dbd"));
    proof {
        g = g.push(("powertype"@, "PowerType.dbd"@));
        assert(entry_views(m@) =~~= g);
    }
    m.push(("prestigelevelinfo", "PrestigeLevelInfo.dbd"));
    proof {
        g = g.push(("prestigelevelinfo"@, "PrestigeLevelInfo.dbd"@));
        assert(entry_views(m@) =~~= g);
    }
    m.push(("profession", "Profession.dbd"));
    proof {
        g = g.push(("profession"@, "Profession.dbd"@));
        assert(entry_views(m@) =~~= g);
    }
    m.push(("professioneffect", "ProfessionEffect.dbd"));
    proof {
        g = g.push(("professioneffect"@, "ProfessionEffect.dbd"@));
        assert(entry_views(m@) =~~= g);
    }
    m.push(("professioneffecttype", "ProfessionEffectType.dbd"));
    proof {
        g = g.push(("professioneffecttype"@, "ProfessionEffectType.dbd"@));
        assert(entry_views(m@) =~~= g);
    }
    m.push(("professionexpansion", "ProfessionExpansion.dbd"));
    proof {
        g = g.push(("professionexpansion"@, "ProfessionExpansion.dbd"@));
        assert(entry_views(m@) =~~= g);
    }
    m.push(("professionrating", "ProfessionRating.dbd"));
    proof {
        g = g.push(("professionrating"@, "ProfessionRating.dbd"@));
        assert(entry_views(m@) =~~= g);
    }
    m.push(("professiontrait", "ProfessionTrait.dbd"));
    proof {
        g = g.push(("professiontrait"@, "ProfessionTrait.dbd"@));
        assert(entry_views(m@) =~~= g);
    }
    m.push(("professiontraitxeffect", "ProfessionTraitXEffect.dbd"));
    proof {
        g = g.push(("professiontraitxeffect"@, "ProfessionTraitXEffect.dbd"@));
        assert(entry_views(m@) =~~= g);
    }
    m.push(("professiontraitxlabel", "ProfessionTraitXLabel.dbd"));
    proof {
        g = g.push(("professiontraitxlabel"@, "ProfessionTraitXLabel.dbd"@));
        assert(entry_views(m@) =~~= g);
    }
    m.push(("professionxrating", "ProfessionXRating.dbd"));
    proof {
        g = g.push(("professionxrating"@, "ProfessionXRating.dbd"@));
        assert(entry_views(m@) =~~= g);
    }
    m.push(("proftraitpathnode", "ProfTraitPathNode.dbd"));
    proof {
        g = g.push(("proftraitpathnode"@, "ProfTraitPathNode.dbd"@));
        assert(entry_views(m@) =~~= g);
    }
    m.push(("proftraitperknode", "ProfTraitPerkNode.dbd"));
    proof {
        g = g.push(("proftraitperknode"@, "ProfTraitPerkNode.dbd"@));
        assert(entry_views(m@) =~~= g);
    }
    m.push(("proftraittree", "ProfTraitTree.dbd"));
    proof {
        g = g.push(("proftraittree"@, "ProfTraitTree.dbd"@));
        assert(entry_views(m@) =~~= g);
    }
    m.push(("proftraittreehighlight", "ProfTraitTreeHighlight.dbd"));
    proof {
        g = g.push(("proftraittreehighlight"@, "ProfTraitTreeHighlight.dbd"@));
        assert(entry_views(m@) =~~= g);
    }
    m.push(("pvpbrackettypes", "PVPBracketTypes.dbd"));
    proof {
        g = g.push(("pvpbrackettypes"@, "PVPBracketTypes.dbd"@));
        assert(entry_views(m@) =~~= g);
        assert(m@.len() == 150);
    }
    m.push(("pvpbrawl", "PvpBrawl.dbd"));
    proof {
        g = g.push(("pvpbrawl"@, "PvpBrawl.dbd"@));
        assert(entry_views(m@) =~~= g);
    }
    m.push(("pvpdifficulty", "PVPDifficulty.dbd"));
    proof {
        g = g.push(("pvpdifficulty"@, "PVPDifficulty.dbd"@));
        assert(entry_views(m@) =~~= g);
    }
    m.push(("pvpitem", "PVPItem.dbd"));
    proof {
        g = g.push(("pvpitem"@, "PVPItem.dbd"@));
        assert(entry_views(m@) =~~= g);
    }
    m.push(("pvprating", "PvpRating.dbd"));
    proof {
        g = g.push(("pvprating"@, "PvpRating.dbd"@));
        assert(entry_views(m@) =~~= g);
    }
    m.push(("pvpreward", "PvpReward.dbd"));
    proof {
        g = g.push(("pvpreward"@, "PvpReward.dbd"@));
        assert(entry_views(m@) =~~= g);
    }
    m.push(("pvpscalingeffect", "PvpScalingEffect.dbd"));
    proof {
        g = g.push(("pvpscalingeffect"@, "PvpScalingEffect.dbd"@));
        assert(entry_views(m@) =~~= g);
    }
    m.push(("pvpscoreboardcellinfo", "PVPScoreboardCellInfo.dbd"));
    proof {
        g = g.push(("pvpscoreboardcellinfo"@, "PVPScoreboardCellInfo.dbd"@));
        assert(entry_views(m@) =~~= g);
    }
    m.push(("pvpscoreboardcolumnheader", "PVPScoreboardColumnHeader.dbd"));
    proof {
        g = g.push(("pvpscoreboardcolumnheader"@, "PVPScoreboardColumnHeader.dbd"@));
        assert(entry_views(m@) =~~= g);
    }
    m.push(("pvpscoreboardlayout", "PVPScoreboardLayout.dbd"));
    proof {
        g = g.push(("pvpscoreboardlayout"@, "PVPScoreboardLayout.dbd"@));
        assert(entry_views(m@) =~~= g);
    }
    m.push(("pvpseason", "PvpSeason.dbd"));
    proof {
        g = g.push(("pvpseason"@, "PvpSeason.dbd"@));
        assert(entry_views(m@) =~~= g);
    }
    m.push(("pvpseasonrewardlevels", "PvpSeasonRewardLevels.dbd"));
    proof {
        g = g.push(("pvpseasonrewardlevels"@, "PvpSeasonRewardLevels.dbd"@));
        assert(entry_views(m@) =~~= g);
    }
    m.push(("pvpstat", "PVPStat.dbd"));
    proof {
        g = g.push(("pvpstat"@, "PVPStat.dbd"@));
        assert(entry_views(m@) =~~= g);
    }
    m.push(("pvptalent", "PvpTalent.dbd"));
    proof {
        g = g.push(("pvptalent"@, "PvpTalent.dbd"@));
        assert(entry_views(m@) =~~= g);
    }
    m.push(("pvptalentcategory", "PvpTalentCategory.dbd"));
    proof {
        g = g.push(("pvptalentcategory"@, "PvpTalentCategory.dbd"@));
        assert(entry_views(m@) =~~= g);
    }
    m.push(("pvptalentslotunlock", "PvpTalentSlotUnlock.dbd"));
    proof {
        g = g.push(("pvptalentslotunlock"@, "PvpTalentSlotUnlock.dbd"@));
        assert(entry_views(m@) =~~= g);
    }
    m.push(("pvptalentunlock", "PvpTalentUnlock.dbd"));
    proof {
        g = g.push(("pvptalentunlock"@, "PvpTalentUnlock.dbd"@));
        assert(entry_views(m@) =~~= g);
    }
    m.push(("pvptier", "PvpTier.dbd"));
    proof {
        g = g.push(("pvptier"@, "PvpTier.dbd"@));
        assert(entry_views(m@) =~~= g);
    }
    m.push(("questdrivenscenario", "QuestDrivenScenario.dbd"));
    proof {
        g = g.push(("questdrivenscenario"@, "QuestDrivenScenario.dbd"@));
        assert(entry_views(m@) =~~= g);
    }
    m.push(("questfactionreward", "QuestFactionReward.dbd"));
    proof {
        g = g.push(("questfactionreward"@, "QuestFactionReward.dbd"@));
        assert(entry_views(m@) =~~= g);
    }
    m.push(("questfeedbackeffect", "QuestFeedbackEffect.dbd"));
    proof {
        g = g.push(("questfeedbackeffect"@, "QuestFeedbackEffect.dbd"@));
        assert(entry_views(m@) =~~= g);
    }
    m.push(("questhub", "QuestHub.dbd"));
    proof {
        g = g.push(("questhub"@, "QuestHub.dbd"@));
        assert(entry_views(m@) =~~= g);
    }
    m.push(("questinfo", "QuestInfo.dbd"));
    proof {
        g = g.push(("questinfo"@, "QuestInfo.dbd"@));
        assert(entry_views(m@) =~~= g);
    }
    m.push(("questline", "QuestLine.dbd"));
    proof {
        g = g.push(("questline"@, "QuestLine.dbd"@));
        assert(entry_views(m@) =~~= g);
    }
    m.push(("questlinexquest", "QuestLineXQuest.dbd"));
    proof {
        g = g.push(("questlinexquest"@, "QuestLineXQuest.dbd"@));
        assert(entry_views(m@) =~~= g);
    }
    m.push(("questmoneyreward", "QuestMoneyReward.dbd"));
    proof {
        g = g.push(("questmoneyreward"@, "QuestMoneyReward.dbd"@));
        assert(entry_views(m@) =~~= g);
    }
    m.push(("questobjective", "QuestObjective.dbd"));
    proof {
        g = g.push(("questobjective"@, "QuestObjective.dbd"@));
        assert(entry_views(m@) =~~= g);
    }
    m.push(("questpackageitem", "QuestPackageItem.dbd"));
    proof {
        g = g.push(("questpackageitem"@, "QuestPackageItem.dbd"@));
        assert(entry_views(m@) =~~= g);
    }
    m.push(("questpoiblob", "QuestPOIBlob.dbd"));
    proof {
        g = g.push(("questpoiblob"@, "QuestPOIBlob.dbd"@));
        assert(entry_views(m@) =~~= g);
    }
    m.push(("questpoipoint", "QuestPOIPoint.dbd"));
    proof {
        g = g.push(("questpoipoint"@, "QuestPOIPoint.dbd"@));
        assert(entry_views(m@) =~~= g);
    }
    m.push(("questsort", "QuestSort.dbd"));
    proof {
        g = g.push(("questsort"@, "QuestSort.dbd"@));
        assert(entry_views(m@) =~~= g);
        assert(m@.len() == 180);
    }
    m.push(("questv2", "QuestV2.dbd"));
    proof {
        g = g.push(("questv2"@, "QuestV2.dbd"@));
        assert(entry_views(m@) =~~= g);
    }
    m.push(("questv2clitask", "QuestV2CliTask.dbd"));
    proof {
        g = g.push(("questv2clitask"@, "QuestV2CliTask.dbd"@));
        assert(entry_views(m@) =~~= g);
    }
    m.push(("questxgroupactivity", "QuestXGroupActivity.dbd"));
    proof {
        g = g.push(("questxgroupactivity"@, "QuestXGroupActivity.dbd"@));
        assert(entry_views(m@) =~~= g);
    }
    m.push(("questxp", "QuestXP.dbd"));
    proof {
        g = g.push(("questxp"@, "QuestXP.dbd"@));
        assert(entry_views(m@) =~~= g);
    }
    m.push(("questxuiquestdetailstheme", "QuestXUIQuestDetailsTheme.dbd"));
    proof {
        g = g.push(("questxuiquestdetailstheme"@, "QuestXUIQuestDetailsTheme.dbd"@));
        assert(entry_views(m@) =~~= g);
    }
    m.push(("questxuiwidgetset", "QuestXUiWidgetSet.dbd"));
    proof {
        g = g.push(("questxuiwidgetset"@, "QuestXUiWidgetSet.dbd"@));
        assert(entry_views(m@) =~~= g);
    }
    m.push(("racialmounts", "RacialMounts.dbd"));
    proof {
        g = g.push(("racialmounts"@, "RacialMounts.dbd"@));
        assert(entry_views(m@) =~~= g);
    }
    m.push(("rafactivity", "RafActivity.dbd"));
    proof {
        g = g.push(("rafactivity"@, "RafActivity.dbd"@));
        assert(entry_views(m@) =~~= g);
    }
    m.push(("recipeprogressiongroupentry", "RecipeProgressionGroupEntry.dbd"));
    proof {
        g = g.push(("recipeprogressiongroupentry"@, "RecipeProgressionGroupEntry.dbd"@));
        assert(entry_views(m@) =~~= g);
    }
    m.push(("relicslottierrequirement", "RelicSlotTierRequirement.dbd"));
    proof {
        g = g.push(("relicslottierrequirement"@, "RelicSlotTierRequirement.dbd"@));
        assert(entry_views(m@) =~~= g);
    }
    m.push(("relictalent", "RelicTalent.dbd"));
    proof {
        g = g.push(("relictalent"@, "RelicTalent.dbd"@));
        assert(entry_views(m@) =~~= g);
    }
    m.push(("renownrewards", "RenownRewards.dbd"));
    proof {
        g = g.push(("renownrewards"@, "RenownRewards.dbd"@));
        assert(entry_views(m@) =~~= g);
    }
    m.push(("renownrewardsplunderstorm", "RenownRewardsPlunderstorm.dbd"));
    proof {
        g = g.push(("renownrewardsplunderstorm"@, "RenownRewardsPlunderstorm.dbd"@));
        assert(entry_views(m@) =~~= g);
    }
    m.push(("researchbranch", "ResearchBranch.dbd"));
    proof {
        g = g.push(("researchbranch"@, "ResearchBranch.dbd"@));
        assert(entry_views(m@) =~~= g);
    }
    m.push(("researchfield", "ResearchField.dbd"));
    proof {
        g = g.push(("researchfield"@, "ResearchField.dbd"@));
        assert(entry_views(m@) =~~= g);
    }
    m.push(("researchproject", "ResearchProject.dbd"));
    proof {
        g = g.push(("researchproject"@, "ResearchProject.dbd"@));
        assert(entry_views(m@) =~~= g);
    }
    m.push(("researchsite", "ResearchSite.dbd"));
    proof {
        g = g.push(("researchsite"@, "ResearchSite.dbd"@));
        assert(entry_views(m@) =~~= g);
    }
    m.push(("resistances", "Resistances.dbd"));
    proof {
        g = g.push(("resistances"@, "Resistances.dbd"@));
        assert(entry_views(m@) =~~= g);
    }
    m.push(("rewardpack", "RewardPack.dbd"));
    proof {
        g = g.push(("rewardpack"@, "RewardPack.dbd"@));
        assert(entry_views(m@) =~~= g);
    }
    m.push(("rewardpackxcurrencytype", "RewardPackXCurrencyType.dbd"));
    proof {
        g = g.push(("rewardpackxcurrencytype"@, "RewardPackXCurrencyType.dbd"@));
        assert(entry_views(m@) =~~= g);
    }
    m.push(("rewardpackxitem", "RewardPackXItem.dbd"));
    proof {
        g = g.push(("rewardpackxitem"@, "RewardPackXItem.dbd"@));
        assert(entry_views(m@) =~~= g);
    }
    m.push(("ribbonquality", "RibbonQuality.dbd"));
    proof {
        g = g.push(("ribbonquality"@, "RibbonQuality.dbd"@));
        assert(entry_views(m@) =~~= g);
    }
    m.push(("rolodextype", "RolodexType.dbd"));
    proof {
        g = g.push(("rolodextype"@, "RolodexType.dbd"@));
        assert(entry_views(m@) =~~= g);
    }
    m.push(("ropeeffect", "RopeEffect.dbd"));
    proof {
        g = g.push(("ropeeffect"@, "RopeEffect.dbd"@));
        assert(entry_views(m@) =~~= g);
    }
    m.push(("rtpcdata", "RTPCData.dbd"));
    proof {
        g = g.push(("rtpcdata"@, "RTPCData.dbd"@));
        assert(entry_views(m@) =~~= g);
    }
    m.push(("rulesetitemupgrade", "RulesetItemUpgrade.dbd"));
    proof {
        g = g.push(("rulesetitemupgrade"@, "RulesetItemUpgrade.dbd"@));
        assert(entry_views(m@) =~~= g);
    }
    m.push(("rulesetraidlootupgrade", "RulesetRaidLootUpgrade.dbd"));
    proof {
        g = g.push(("rulesetraidlootupgrade"@, "RulesetRaidLootUpgrade.dbd"@));
        assert(entry_views(m@) =~~= g);
    }
    m.push(("rulesetraidoverride", "RulesetRaidOverride.dbd"));
    proof {
        g = g.push(("rulesetraidoverride"@, "RulesetRaidOverride.dbd"@));
        assert(entry_views(m@) =~~= g);
    }
    m.push(("runeforgelegendaryability", "RuneforgeLegendaryAbility.dbd"));
    proof {
        g = g.push(("runeforgelegendaryability"@, "RuneforgeLegendaryAbility.dbd"@));
        assert(entry_views(m@) =~~= g);
    }
    m.push(("sandboxscaling", "SandboxScaling.dbd"));
    proof {
        g = g.push(("sandboxscaling"@, "SandboxScaling.dbd"@));
        assert(entry_views(m@) =~~= g);
        assert(m@.len() == 210);
    }
    proof {
        reveal(catalog_data_d);
        assert(g == catalog_data_d());
    }
    m
}

/// One slice of the embedded catalog data; it carries exactly the
/// pairs its specification-level slice states.
fn catalog_entries_e() -> (m: Vec<(&'static str, &'static str)>)
    ensures
        m@.len() == 210,
        entry_views(m@) == catalog_data_e(),
{
    let mut m: Vec<(&'static str, &'static str)> = Vec::new();
    let ghost mut g: Seq<(Seq<char>, Seq<char>)> = Seq::empty();
    proof {
        assert(entry_views(m@) =~~= g);
    }
    m.push(("scalingstatdistribution", "ScalingStatDistribution.dbd"));
    proof {
        g = g.push(("scalingstatdistribution"@, "ScalingStatDistribution.dbd"@));
        assert(entry_views(m@) =~~= g);
    }
    m.push(("scalingstatvalues", "ScalingStatValues.dbd"));
    proof {
        g = g.push(("scalingstatvalues"@, "ScalingStatValues.dbd"@));
        assert(entry_views(m@) =~~= g);
    }
    m.push(("scenario", "Scenario.dbd"));
    proof {
        g = g.push(("scenario"@, "Scenario.dbd"@));
        assert(entry_views(m@) =~~= g);
    }
    m.push(("scenarioevententry", "ScenarioEventEntry.dbd"));
    proof {
        g = g.push(("scenarioevententry"@, "ScenarioEventEntry.dbd"@));
        assert(entry_views(m@) =~~= g);
    }
    m.push(("scenariostep", "ScenarioStep.dbd"));
    proof {
        g = g.push(("scenariostep"@, "ScenarioStep.dbd"@));
        assert(entry_views(m@) =~~= g);
    }
    m.push(("scenescript", "SceneScript.dbd"));
    proof {
        g = g.push(("scenescript"@, "SceneScript.dbd"@));
        assert(entry_views(m@) =~~= g);
    }
    m.push(("scenescriptglobaltext", "SceneScriptGlobalText.dbd"));
    proof {
        g = g.push(("scenescriptglobaltext"@, "SceneScriptGlobalText.dbd"@));
        assert(entry_views(m@) =~~= g);
    }
    m.push(("scenescriptpackage", "SceneScriptPackage.dbd"));
    proof {
        g = g.push(("scenescriptpackage"@, "SceneScriptPackage.dbd"@));
        assert(entry_views(m@) =~~= g);
    }
    m.push(("scenescriptpackagemember", "SceneScriptPackageMember.dbd"));
    proof {
        g = g.push(("scenescriptpackagemember"@, "SceneScriptPackageMember.dbd"@));
        assert(entry_views(m@) =~~= g);
    }
    m.push(("scheduledinterval", "ScheduledInterval.dbd"));
    proof {
        g = g.push(("scheduledinterval"@, "ScheduledInterval.dbd"@));
        assert(entry_views(m@) =~~= g);
    }
    m.push(("scheduledworldstate", "ScheduledWorldState.dbd"));
    proof {
        g = g.push(("scheduledworldstate"@, "ScheduledWorldState.dbd"@));
        assert(entry_views(m@) =~~= g);
    }
    m.push(("scheduledworldstategroup", "ScheduledWorldStateGroup.dbd"));
    proof {
        g = g.push(("scheduledworldstategroup"@, "ScheduledWorldStateGroup.dbd"@));
        assert(entry_views(m@) =~~= g);
    }
    m.push(("scheduledworldstatexuniqcat", "ScheduledWorldStateXUniqCat.dbd"));
    proof {
        g = g.push(("scheduledworldstatexuniqcat"@, "ScheduledWorldStateXUniqCat.dbd"@));
        assert(entry_views(m@) =~~= g);
    }
    m.push(("screeneffect", "ScreenEffect.dbd"));
    proof {
        g = g.push(("screeneffect"@, "ScreenEffect.dbd"@));
        assert(entry_views(m@) =~~= g);
    }
    m.push(("screeneffecttype", "ScreenEffectType.dbd"));
    proof {
        g = g.push(("screeneffecttype"@, "ScreenEffectType.dbd"@));
        assert(entry_views(m@) =~~= g);
    }
    m.push(("screenlocation", "ScreenLocation.dbd"));
    proof {
        g = g.push(("screenlocation"@, "ScreenLocation.dbd"@));
        assert(entry_views(m@) =~~= g);
    }
    m.push(("sdreplacementmodel", "SDReplacementModel.dbd"));
    proof {
        g = g.push(("sdreplacementmodel"@, "SDReplacementModel.dbd"@));
        assert(entry_views(m@) =~~= g);
    }
    m.push(("seamlesssite", "SeamlessSite.dbd"));
    proof {
        g = g.push(("seamlesssite"@, "SeamlessSite.dbd"@));
        assert(entry_views(m@) =~~= g);
    }
    m.push(("servermessages", "ServerMessages.dbd"));
    proof {
        g = g.push(("servermessages"@, "ServerMessages.dbd"@));
        assert(entry_views(m@) =~~= g);
    }
    m.push(("shadowyeffect", "ShadowyEffect.dbd"));
    proof {
        g = g.push(("shadowyeffect"@, "ShadowyEffect.dbd"@));
        assert(entry_views(m@) =~~= g);
    }
    m.push(("sharedstring", "SharedString.dbd"));
    proof {
        g = g.push(("sharedstring"@, "SharedString.dbd"@));
        assert(entry_views(m@) =~~= g);
    }
    m.push(("sheathesoundlookups", "SheatheSoundLookups.dbd"));
    proof {
        g = g.push(("sheathesoundlookups"@, "SheatheSoundLookups.dbd"@));
        assert(entry_views(m@) =~~= g);
    }
    m.push(("siegeableproperties", "SiegeableProperties.dbd"));
    proof {
        g = g.push(("siegeableproperties"@, "SiegeableProperties.dbd"@));
        assert(entry_views(m@) =~~= g);
    }
    m.push(("skillcostsdata", "SkillCostsData.dbd"));
    proof {
        g = g.push(("skillcostsdata"@, "SkillCostsData.dbd"@));
        assert(entry_views(m@) =~~= g);
    }
    m.push(("skilllineability", "SkillLineAbility.dbd"));
    proof {
        g = g.push(("skilllineability"@, "SkillLineAbility.dbd"@));
        assert(entry_views(m@) =~~= g);
    }
    m.push(("skilllineabilitysortedspell", "SkillLineAbilitySortedSpell.dbd"));
    proof {
        g = g.push(("skilllineabilitysortedspell"@, "SkillLineAbilitySortedSpell.dbd"@));
        assert(entry_views(m@) =~~= g);
    }
    m.push(("skilllinecategory", "SkillLineCategory.dbd"));
    proof {
        g = g.push(("skilllinecategory"@, "SkillLineCategory.dbd"@));
        assert(entry_views(m@) =~~= g);
    }
    m.push(("skilllinextraittree", "SkillLineXTraitTree.dbd"));
    proof {
        g = g.push(("skilllinextraittree"@, "SkillLineXTraitTree.dbd"@));
        assert(entry_views(m@) =~~= g);
    }
    m.push(("skillraceclassinfo", "SkillRaceClassInfo.dbd"));
    proof {
        g = g.push(("skillraceclassinfo"@, "SkillRaceClassInfo.dbd"@));
        assert(entry_views(m@) =~~= g);
    }
    m.push(("skilltiers", "SkillTiers.dbd"));
    proof {
        g = g.push(("skilltiers"@, "SkillTiers.dbd"@));
        assert(entry_views(m@) =~~= g);
        assert(m@.len() == 30);
    }
    m.push(("skyscenexplayercondition", "SkySceneXPlayerCondition.dbd"));
    proof {
        g = g.push(("skyscenexplayercondition"@, "SkySceneXPlayerCondition.dbd"@));
        assert(entry_views(m@) =~~= g);
    }
    m.push(("soulbind", "Soulbind.dbd"));
    proof {
        g = g.push(("soulbind"@, "Soulbind.dbd"@));
        assert(entry_views(m@) =~~= g);
    }
    m.push(("soulbindconduit", "SoulbindConduit.dbd"));
    proof {
        g = g.push(("soulbindconduit"@, "SoulbindConduit.dbd"@));
        assert(entry_views(m@) =~~= g);
    }
    m.push(("soulbindconduitenhancedsocket", "SoulbindConduitEnhancedSocket.dbd"));
    proof {
        g = g.push(("soulbindconduitenhancedsocket"@, "SoulbindConduitEnhancedSocket.dbd"@));
        assert(entry_views(m@) =~~= g);
    }
    m.push(("soulbindconduititem", "SoulbindConduitItem.dbd"));
    proof {
        g = g.push(("soulbindconduititem"@, "SoulbindConduitItem.dbd"@));
        assert(entry_views(m@) =~~= g);
    }
    m.push(("soulbindconduitrank", "SoulbindConduitRank.dbd"));
    proof {
        g = g.push(("soulbindconduitrank"@, "SoulbindConduitRank.dbd"@));
        assert(entry_views(m@) =~~= g);
    }
    m.push(("soulbindconduitrankproperties", "SoulbindConduitRankProperties.dbd"));
    proof {
        g = g.push(("soulbindconduitrankproperties"@, "SoulbindConduitRankProperties.dbd"@));
        assert(entry_views(m@) =~~= g);
    }
    m.push(("soulbinduidisplayinfo", "SoulbindUIDisplayInfo.dbd"));
    proof {
        g = g.push(("soulbinduidisplayinfo"@, "SoulbindUIDisplayInfo.dbd"@));
        assert(entry_views(m@) =~~= g);
    }
    m.push(("soundambience", "SoundAmbience.dbd"));
    proof {
        g = g.push(("soundambience"@, "SoundAmbience.dbd"@));
        assert(entry_views(m@) =~~= g);
    }
    m.push(("soundbus", "SoundBus.dbd"));
    proof {
        g = g.push(("soundbus"@, "SoundBus.dbd"@));
        assert(entry_views(m@) =~~= g);
    }
    m.push(("soundbusname", "SoundBusName.dbd"));
    proof {
        g = g.push(("soundbusname"@, "SoundBusName.dbd"@));
        assert(entry_views(m@) =~~= g);
    }
    m.push(("soundbusoverride", "SoundBusOverride.dbd"));
    proof {
        g = g.push(("soundbusoverride"@, "SoundBusOverride.dbd"@));
        assert(entry_views(m@) =~~= g);
    }
    m.push(("soundcharactermacrolines", "SoundCharacterMacroLines.dbd"));
    proof {
        g = g.push(("soundcharactermacrolines"@, "SoundCharacterMacroLines.dbd"@));
        assert(entry_views(m@) =~~= g);
    }
    m.push(("soundemitterpillpoints", "SoundEmitterPillPoints.dbd"));
    proof {
        g = g.push(("soundemitterpillpoints"@, "SoundEmitterPillPoints.dbd"@));
        assert(entry_views(m@) =~~= g);
    }
    m.push(("soundemitters", "SoundEmitters.dbd"));
    proof {
        g = g.push(("soundemitters"@, "SoundEmitters.dbd"@));
        assert(entry_views(m@) =~~= g);
    }
    m.push(("soundentries", "SoundEntries.dbd"));
    proof {
        g = g.push(("soundentries"@, "SoundEntries.dbd"@));
        assert(entry_views(m@) =~~= g);
    }
    m.push(("soundentriesadvanced", "SoundEntriesAdvanced.dbd"));
    proof {
        g = g.push(("soundentriesadvanced"@, "SoundEntriesAdvanced.dbd"@));
        assert(entry_views(m@) =~~= g);
    }
    m.push(("soundentriesfallbacks", "SoundEntriesFallbacks.dbd"));
    proof {
        g = g.push(("soundentriesfallbacks"@, "SoundEntriesFallbacks.dbd"@));
        assert(entry_views(m@) =~~= g);
    }
    m.push(("soundenvelope", "SoundEnvelope.dbd"));
    proof {
        g = g.push(("soundenvelope"@, "SoundEnvelope.dbd"@));
        assert(entry_views(m@) =~~= g);
    }
    m.push(("soundfilter", "SoundFilter.dbd"));
    proof {
        g = g.push(("soundfilter"@, "SoundFilter.dbd"@));
        assert(entry_views(m@) =~~= g);
    }
    m.push(("soundfilterelem", "SoundFilterElem.dbd"));
    proof {
        g = g.push(("soundfilterelem"@, "SoundFilterElem.dbd"@));
        assert(entry_views(m@) =~~= g);
    }
    m.push(("soundkit", "SoundKit.dbd"));
    proof {
        g = g.push(("soundkit"@, "SoundKit.dbd"@));
        assert(entry_views(m@) =~~= g);
    }
    m.push(("soundkitadvanced", "SoundKitAdvanced.dbd"));
    proof {
        g = g.push(("soundkitadvanced"@, "SoundKitAdvanced.dbd"@));
        assert(entry_views(m@) =~~= g);
    }
    m.push(("soundkitchild", "SoundKitChild.dbd"));
    proof {
        g = g.push(("soundkitchild"@, "SoundKitChild.dbd"@));
        assert(entry_views(m@) =~~= g);
    }
    m.push(("soundkitentry", "SoundKitEntry.dbd"));
    proof {
        g = g.push(("soundkitentry"@, "SoundKitEntry.dbd"@));
        assert(entry_views(m@) =~~= g);
    }
    m.push(("soundkitname", "SoundKitName.dbd"));
    proof {
        g = g.push(("soundkitname"@, "SoundKitName.dbd"@));
        assert(entry_views(m@) =~~= g);
    }
    m.push(("soundmixgroup", "SoundMixGroup.dbd"));
    proof {
        g = g.push(("soundmixgroup"@, "SoundMixGroup.dbd"@));
        assert(entry_views(m@) =~~= g);
    }
    m.push(("soundoverride", "SoundOverride.dbd"));
    proof {
        g = g.push(("soundoverride"@, "SoundOverride.dbd"@));
        assert(entry_views(m@) =~~= g);
    }
    m.push(("soundparameter", "SoundParameter.dbd"));
    proof {
        g = g.push(("soundparameter"@, "SoundParameter.dbd"@));
        assert(entry_views(m@) =~~= g);
    }
    m.push(("soundproviderpreferences", "SoundProviderPreferences.dbd"));
    proof {
        g = g.push(("soundproviderpreferences"@, "SoundProviderPreferences.dbd"@));
        assert(entry_views(m@) =~~= g);
        assert(m@.len() == 60);
    }
    m.push(("soundsamplepreferences", "SoundSamplePreferences.dbd"));
    proof {
        g = g.push(("soundsamplepreferences"@, "SoundSamplePreferences.dbd"@));
        assert(entry_views(m@) =~~= g);
    }
    m.push(("soundwaterfallemitter", "SoundWaterfallEmitter.dbd"));
    proof {
        g = g.push(("soundwaterfallemitter"@, "SoundWaterfallEmitter.dbd"@));
        assert(entry_views(m@) =~~= g);
    }
    m.push(("soundwatertype", "SoundWaterType.dbd"));
    proof {
        g = g.push(("soundwatertype"@, "SoundWaterType.dbd"@));
        assert(entry_views(m@) =~~= g);
    }
    m.push(("sourceinfo", "SourceInfo.dbd"));
    proof {
        g = g.push(("sourceinfo"@, "SourceInfo.dbd"@));
        assert(entry_views(m@) =~~= g);
    }
    m.push(("spammessages", "SpamMessages.dbd"));
    proof {
        g = g.push(("spammessages"@, "SpamMessages.dbd"@));
        assert(entry_views(m@) =~~= g);
    }
    m.push(("specializationspells", "SpecializationSpells.dbd"));
    proof {
        g = g.push(("specializationspells"@, "SpecializationSpells.dbd"@));
        assert(entry_views(m@) =~~= g);
    }
    m.push(("specializationspellsdisplay", "SpecializationSpellsDisplay.dbd"));
    proof {
        g = g.push(("specializationspellsdisplay"@, "SpecializationSpellsDisplay.dbd"@));
        assert(entry_views(m@) =~~= g);
    }
    m.push(("specsetmember", "SpecSetMember.dbd"));
    proof {
        g = g.push(("specsetmember"@, "SpecSetMember.dbd"@));
        assert(entry_views(m@) =~~= g);
    }
    m.push(("spell", "Spell.dbd"));
    proof {
        g = g.push(("spell"@, "Spell.dbd"@));
        assert(entry_views(m@) =~~= g);
    }
    m.push(("spellactionbarpref", "SpellActionBarPref.dbd"));
    proof {
        g = g.push(("spellactionbarpref"@, "SpellActionBarPref.dbd"@));
        assert(entry_views(m@) =~~= g);
    }
    m.push(("spellauranames", "SpellAuraNames.dbd"));
    proof {
        g = g.push(("spellauranames"@, "SpellAuraNames.dbd"@));
        assert(entry_views(m@) =~~= g);
    }
    m.push(("spellauraoptions", "SpellAuraOptions.dbd"));
    proof {
        g = g.push(("spellauraoptions"@, "SpellAuraOptions.dbd"@));
        assert(entry_views(m@) =~~= g);
    }
    m.push(("spellaurarestrictions", "SpellAuraRestrictions.dbd"));
    proof {
        g = g.push(("spellaurarestrictions"@, "SpellAuraRestrictions.dbd"@));
        assert(entry_views(m@) =~~= g);
    }
    m.push(("spellaurarestrictionsdifficulty", "SpellAuraRestrictionsDifficulty.dbd"));
    proof {
        g = g.push(("spellaurarestrictionsdifficulty"@, "SpellAuraRestrictionsDifficulty.dbd"@));
        assert(entry_views(m@) =~~= g);
    }
    m.push(("spellauravisibility", "SpellAuraVisibility.dbd"));
    proof {
        g = g.push(("spellauravisibility"@, "SpellAuraVisibility.dbd"@));
        assert(entry_views(m@) =~~= g);
    }
    m.push(("spellauravisxchrspec", "SpellAuraVisXChrSpec.dbd"));
    proof {
        g = g.push(("spellauravisxchrspec"@, "SpellAuraVisXChrSpec.dbd"@));
        assert(entry_views(m@) =~~= g);
    }
    m.push(("spellauravisxtalenttab", "SpellAuraVisXTalentTab.dbd"));
    proof {
        g = g.push(("spellauravisxtalenttab"@, "SpellAuraVisXTalentTab.dbd"@));
        assert(entry_views(m@) =~~= g);
    }
    m.push(("spellcastingrequirements", "SpellCastingRequirements.dbd"));
    proof {
        g = g.push(("spellcastingrequirements"@, "SpellCastingRequirements.dbd"@));
        assert(entry_views(m@) =~~= g);
    }
    m.push(("spellcasttimes", "SpellCastTimes.dbd"));
    proof {
        g = g.push(("spellcasttimes"@, "SpellCastTimes.dbd"@));
        assert(entry_views(m@) =~~= g);
    }
    m.push(("spellcategories", "SpellCategories.dbd"));
    proof {
        g = g.push(("spellcategories"@, "SpellCategories.dbd"@));
        assert(entry_views(m@) =~~= g);
    }
    m.push(("spellcategory", "SpellCategory.dbd"));
    proof {
        g = g.push(("spellcategory"@, "SpellCategory.dbd"@));
        assert(entry_views(m@) =~~= g);
    }
    m.push(("spellchaineffects", "SpellChainEffects.dbd"));
    proof {
        g = g.push(("spellchaineffects"@, "SpellChainEffects.dbd"@));
        assert(entry_views(m@) =~~= g);
    }
    m.push(("spellclassoptions", "SpellClassOptions.dbd"));
    proof {
        g = g.push(("spellclassoptions"@, "SpellClassOptions.dbd"@));
        assert(entry_views(m@) =~~= g);
    }
    m.push(("spellclutterareaeffectcounts", "SpellClutterAreaEffectCounts.dbd"));
    proof {
        g = g.push(("spellclutterareaeffectcounts"@, "SpellClutterAreaEffectCounts.dbd"@));
        assert(entry_views(m@) =~~= g);
    }
    m.push(("spellclutterframerates", "SpellClutterFrameRates.dbd"));
    proof {
        g = g.push(("spellclutterframerates"@, "SpellClutterFrameRates.dbd"@));
        assert(entry_views(m@) =~~= g);
    }
    m.push(("spellclutterkitdistances", "SpellClutterKitDistances.dbd"));
    proof {
        g = g.push(("spellclutterkitdistances"@, "SpellClutterKitDistances.dbd"@));
        assert(entry_views(m@) =~~= g);
    }
    m.push(("spellcluttermissiledist", "SpellClutterMissileDist.dbd"));
    proof {
        g = g.push(("spellcluttermissiledist"@, "SpellClutterMissileDist.dbd"@));
        assert(entry_views(m@) =~~= g);
    }
    m.push(("spellclutterweapontraildist", "SpellClutterWeaponTrailDist.dbd"));
    proof {
        g = g.push(("spellclutterweapontraildist"@, "SpellClutterWeaponTrailDist.dbd"@));
        assert(entry_views(m@) =~~= g);
    }
    m.push(("spellcooldowns", "SpellCooldowns.dbd"));
    proof {
        g = g.push(("spellcooldowns"@, "SpellCooldowns.dbd"@));
        assert(entry_views(m@) =~~= g);
    }
    m.push(("spellcraftui", "SpellCraftUI.dbd"));
    proof {
        g = g.push(("spellcraftui"@, "SpellCraftUI.dbd"@));
        assert(entry_views(m@) =~~= g);
        assert(m@.len() == 90);
    }
    m.push(("spelldescriptionvariables", "SpellDescriptionVariables.dbd"));
    proof {
        g = g.push(("spelldescriptionvariables"@, "SpellDescriptionVariables.dbd"@));
        assert(entry_views(m@) =~~= g);
    }
    m.push(("spelldifficulty", "SpellDifficulty.dbd"));
    proof {
        g = g.push(("spelldifficulty"@, "SpellDifficulty.dbd"@));
        assert(entry_views(m@) =~~= g);
    }
    m.push(("spelldispeltype", "SpellDispelType.dbd"));
    proof {
        g = g.push(("spelldispeltype"@, "SpellDispelType.dbd"@));
        assert(entry_views(m@) =~~= g);
    }
    m.push(("spellduration", "SpellDuration.dbd"));
    proof {
        g = g.push(("spellduration"@, "SpellDuration.dbd"@));
        assert(entry_views(m@) =~~= g);
    }
    m.push(("spelleffect", "SpellEffect.dbd"));
    proof {
        g = g.push(("spelleffect"@, "SpellEffect.dbd"@));
        assert(entry_views(m@) =~~= g);
    }
    m.push(("spelleffectautodescription", "SpellEffectAutoDescription.dbd"));
    proof {
        g = g.push(("spelleffectautodescription"@, "SpellEffectAutoDescription.dbd"@));
        assert(entry_views(m@) =~~= g);
    }
    m.push(("spelleffectcamerashakes", "SpellEffectCameraShakes.dbd"));
    proof {
        g = g.push(("spelleffectcamerashakes"@, "SpellEffectCameraShakes.dbd"@));
        assert(entry_views(m@) =~~= g);
    }
    m.push(("spelleffectemission", "SpellEffectEmission.dbd"));
    proof {
        g = g.push(("spelleffectemission"@, "SpellEffectEmission.dbd"@));
        assert(entry_views(m@) =~~= g);
    }
    m.push(("spelleffectgroupsize", "SpellEffectGroupSize.dbd"));
    proof {
        g = g.push(("spelleffectgroupsize"@, "SpellEffectGroupSize.dbd"@));
        assert(entry_views(m@) =~~= g);
    }
    m.push(("spelleffectnames", "SpellEffectNames.dbd"));
    proof {
        g = g.push(("spelleffectnames"@, "SpellEffectNames.dbd"@));
        assert(entry_views(m@) =~~= g);
    }
    m.push(("spellempower", "SpellEmpower.dbd"));
    proof {
        g = g.push(("spellempower"@, "SpellEmpower.dbd"@));
        assert(entry_views(m@) =~~= g);
    }
    m.push(("spellempowerstage", "SpellEmpowerStage.dbd"));
    proof {
        g = g.push(("spellempowerstage"@, "SpellEmpowerStage.dbd"@));
        assert(entry_views(m@) =~~= g);
    }
    m.push(("spellequippeditems", "SpellEquippedItems.dbd"));
    proof {
        g = g.push(("spellequippeditems"@, "SpellEquippedItems.dbd"@));
        assert(entry_views(m@) =~~= g);
    }
    m.push(("spellflyout", "SpellFlyout.dbd"));
    proof {
        g = g.push(("spellflyout"@, "SpellFlyout.dbd"@));
        assert(entry_views(m@) =~~= g);
    }
    m.push(("spellflyoutitem", "SpellFlyoutItem.dbd"));
    proof {
        g = g.push(("spellflyoutitem"@, "SpellFlyoutItem.dbd"@));
        assert(entry_views(m@) =~~= g);
    }
    m.push(("spellfocusobject", "SpellFocusObject.dbd"));
    proof {
        g = g.push(("spellfocusobject"@, "SpellFocusObject.dbd"@));
        assert(entry_views(m@) =~~= g);
    }
    m.push(("spellicon", "SpellIcon.dbd"));
    proof {
        g = g.push(("spellicon"@, "SpellIcon.dbd"@));
        assert(entry_views(m@) =~~= g);
    }
    m.push(("spellinterrupts", "SpellInterrupts.dbd"));
    proof {
        g = g.push(("spellinterrupts"@, "SpellInterrupts.dbd"@));
        assert(entry_views(m@) =~~= g);
    }
    m.push(("spellitemenchantment", "SpellItemEnchantment.dbd"));
    proof {
        g = g.push(("spellitemenchantment"@, "SpellItemEnchantment.dbd"@));
        assert(entry_views(m@) =~~= g);
    }
    m.push(("spellitemenchantmentcondition", "SpellItemEnchantmentCondition.dbd"));
    proof {
        g = g.push(("spellitemenchantmentcondition"@, "SpellItemEnchantmentCondition.dbd"@));
        assert(entry_views(m@) =~~= g);
    }
    m.push(("spellkeyboundoverride", "SpellKeyboundOverride.dbd"));
    proof {
        g = g.push(("spellkeyboundoverride"@, "SpellKeyboundOverride.dbd"@));
        assert(entry_views(m@) =~~= g);
    }
    m.push(("spelllabel", "SpellLabel.dbd"));
    proof {
        g = g.push(("spelllabel"@, "SpellLabel.dbd"@));
        assert(entry_views(m@) =~~= g);
    }
    m.push(("spelllearnspell", "SpellLearnSpell.dbd"));
    proof {
        g = g.push(("spelllearnspell"@, "SpellLearnSpell.dbd"@));
        assert(entry_views(m@) =~~= g);
    }
    m.push(("spelllevels", "SpellLevels.dbd"));
    proof {
        g = g.push(("spelllevels"@, "SpellLevels.dbd"@));
        assert(entry_views(m@) =~~= g);
    }
    m.push(("spellmastery", "SpellMastery.dbd"));
    proof {
        g = g.push(("spellmastery"@, "SpellMastery.dbd"@));
        assert(entry_views(m@) =~~= g);
    }
    m.push(("spellmechanic", "SpellMechanic.dbd"));
    proof {
        g = g.push(("spellmechanic"@, "SpellMechanic.dbd"@));
        assert(entry_views(m@) =~~= g);
    }
    m.push(("spellmisc", "SpellMisc.dbd"));
    proof {
        g = g.push(("spellmisc"@, "SpellMisc.dbd"@));
        assert(entry_views(m@) =~~= g);
    }
    m.push(("spellmiscdifficulty", "SpellMiscDifficulty.dbd"));
    proof {
        g = g.push(("spellmiscdifficulty"@, "SpellMiscDifficulty.dbd"@));
        assert(entry_views(m@) =~~= g);
    }
    m.push(("spellmissile", "SpellMissile.dbd"));
    proof {
        g = g.push(("spellmissile"@, "SpellMissile.dbd"@));
        assert(entry_views(m@) =~~= g);
    }
    m.push(("spellmissilemotion", "SpellMissileMotion.dbd"));
    proof {
        g = g.push(("spellmissilemotion"@, "SpellMissileMotion.dbd"@));
        assert(entry_views(m@) =~~= g);
        assert(m@.len() == 120);
    }
    m.push(("spellname", "SpellName.dbd"));
    proof {
        g = g.push(("spellname"@, "SpellName.dbd"@));
        assert(entry_views(m@) =~~= g);
    }
    m.push(("spelloverridename", "SpellOverrideName.dbd"));
    proof {
        g = g.push(("spelloverridename"@, "SpellOverrideName.dbd"@));
        assert(entry_views(m@) =~~= g);
    }
    m.push(("spellpower", "SpellPower.dbd"));
    proof {
        g = g.push(("spellpower"@, "SpellPower.dbd"@));
        assert(entry_views(m@) =~~= g);
    }
    m.push(("spellpowerdifficulty", "SpellPowerDifficulty.dbd"));
    proof {
        g = g.push(("spellpowerdifficulty"@, "SpellPowerDifficulty.dbd"@));
        assert(entry_views(m@) =~~= g);
    }
    m.push(("spellproceduraleffect", "SpellProceduralEffect.dbd"));
    proof {
        g = g.push(("spellproceduraleffect"@, "SpellProceduralEffect.dbd"@));
        assert(entry_views(m@) =~~= g);
    }
    m.push(("spellprocsperminute", "SpellProcsPerMinute.dbd"));
    proof {
        g = g.push(("spellprocsperminute"@, "SpellProcsPerMinute.dbd"@));
        assert(entry_views(m@) =~~= g);
    }
    m.push(("spellprocsperminutemod", "SpellProcsPerMinuteMod.dbd"));
    proof {
        g = g.push(("spellprocsperminutemod"@, "SpellProcsPerMinuteMod.dbd"@));
        assert(entry_views(m@) =~~= g);
    }
    m.push(("spellradius", "SpellRadius.dbd"));
    proof {
        g = g.push(("spellradius"@, "SpellRadius.dbd"@));
        assert(entry_views(m@) =~~= g);
    }
    m.push(("spellrange", "SpellRange.dbd"));
    proof {
        g = g.push(("spellrange"@, "SpellRange.dbd"@));
        assert(entry_views(m@) =~~= g);
    }
    m.push(("spellreagents", "SpellReagents.dbd"));
    proof {
        g = g.push(("spellreagents"@, "SpellReagents.dbd"@));
        assert(entry_views(m@) =~~= g);
    }
    m.push(("spellreagentscurrency", "SpellReagentsCurrency.dbd"));
    proof {
        g = g.push(("spellreagentscurrency"@, "SpellReagentsCurrency.dbd"@));
        assert(entry_views(m@) =~~= g);
    }
    m.push(("spellreplacement", "SpellReplacement.dbd"));
    proof {
        g = g.push(("spellreplacement"@, "SpellReplacement.dbd"@));
        assert(entry_views(m@) =~~= g);
    }
    m.push(("spellscaling", "SpellScaling.dbd"));
    proof {
        g = g.push(("spellscaling"@, "SpellScaling.dbd"@));
        assert(entry_views(m@) =~~= g);
    }
    m.push(("spellscript", "SpellScript.dbd"));
    proof {
        g = g.push(("spellscript"@, "SpellScript.dbd"@));
        assert(entry_views(m@) =~~= g);
    }
    m.push(("spellscripttext", "SpellScriptText.dbd"));
    proof {
        g = g.push(("spellscripttext"@, "SpellScriptText.dbd"@));
        assert(entry_views(m@) =~~= g);
    }
    m.push(("spellshapeshift", "SpellShapeshift.dbd"));
    proof {
        g = g.push(("spellshapeshift"@, "SpellShapeshift.dbd"@));
        assert(entry_views(m@) =~~= g);
    }
    m.push(("spellshapeshiftform", "SpellShapeshiftForm.dbd"));
    proof {
        g = g.push(("spellshapeshiftform"@, "SpellShapeshiftForm.dbd"@));
        assert(entry_views(m@) =~~= g);
    }
    m.push(("spellspecialuniteffect", "SpellSpecialUnitEffect.dbd"));
    proof {
        g = g.push(("spellspecialuniteffect"@, "SpellSpecialUnitEffect.dbd"@));
        assert(entry_views(m@) =~~= g);
    }
    m.push(("spelltargetrestrictions", "SpellTargetRestrictions.dbd"));
    proof {
        g = g.push(("spelltargetrestrictions"@, "SpellTargetRestrictions.dbd"@));
        assert(entry_views(m@) =~~= g);
    }
    m.push(("spelltooltip", "SpellTooltip.dbd"));
    proof {
        g = g.push(("spelltooltip"@, "SpellTooltip.dbd"@));
        assert(entry_views(m@) =~~= g);
    }
    m.push(("spelltotems", "SpellTotems.dbd"));
    proof {
        g = g.push(("spelltotems"@, "SpellTotems.dbd"@));
        assert(entry_views(m@) =~~= g);
    }
    m.push(("spellvisual", "SpellVisual.dbd"));
    proof {
        g = g.push(("spellvisual"@, "SpellVisual.dbd"@));
        assert(entry_views(m@) =~~= g);
    }
    m.push(("spellvisualanim", "SpellVisualAnim.dbd"));
    proof {
        g = g.push(("spellvisualanim"@, "SpellVisualAnim.dbd"@));
        assert(entry_views(m@) =~~= g);
    }
    m.push(("spellvisualanimname", "SpellVisualAnimName.dbd"));
    proof {
        g = g.push(("spellvisualanimname"@, "SpellVisualAnimName.dbd"@));
        assert(entry_views(m@) =~~= g);
    }
    m.push(("spellvisualcoloreffect", "SpellVisualColorEffect.dbd"));
    proof {
        g = g.push(("spellvisualcoloreffect"@, "SpellVisualColorEffect.dbd"@));
        assert(entry_views(m@) =~~= g);
    }
    m.push(("spellvisualeffectname", "SpellVisualEffectName.dbd"));
    proof {
        g = g.push(("spellvisualeffectname"@, "SpellVisualEffectName.dbd"@));
        assert(entry_views(m@) =~~= g);
    }
    m.push(("spellvisualevent", "SpellVisualEvent.dbd"));
    proof {
        g = g.push(("spellvisualevent"@, "SpellVisualEvent.dbd"@));
        assert(entry_views(m@) =~~= g);
    }
    m.push(("playerdataelementaccount", "PlayerDataElementAccount.dbd"));
    proof {
        g = g.push(("playerdataelementaccount"@, "PlayerDataElementAccount.dbd"@));
        assert(entry_views(m@) =~~= g);
    }
    m.push(("professionproppoints", "ProfessionPropPoints.dbd"));
    proof {
        g = g.push(("professionproppoints"@, "ProfessionPropPoints.dbd"@));
        assert(entry_views(m@) =~~= g);
    }
    m.push(("pvpscalingeffecttype", "PvpScalingEffectType.dbd"));
    proof {
        g = g.push(("pvpscalingeffecttype"@, "PvpScalingEffectType.dbd"@));
        assert(entry_views(m@) =~~= g);
        assert(m@.len() == 150);
    }
    m.push(("questlabel", "QuestLabel.dbd"));
    proof {
        g = g.push(("questlabel"@, "QuestLabel.dbd"@));
        assert(entry_views(m@) =~~= g);
    }
    m.push(("randproppoints", "RandPropPoints.dbd"));
    proof {
        g = g.push(("randproppoints"@, "RandPropPoints.dbd"@));
        assert(entry_views(m@) =~~= g);
    }
    m.push(("rtpc", "RTPC.dbd"));
    proof {
        g = g.push(("rtpc"@, "RTPC.dbd"@));
        assert(entry_views(m@) =~~= g);
    }
    m.push(("scenescripttext", "SceneScriptText.dbd"));
    proof {
        g = g.push(("scenescripttext"@, "SceneScriptText.dbd"@));
        assert(entry_views(m@) =~~= g);
    }
    m.push(("skillline", "SkillLine.dbd"));
    proof {
        g = g.push(("skillline"@, "SkillLine.dbd"@));
        assert(entry_views(m@) =~~= g);
    }
    m.push(("soundambienceflavor", "SoundAmbienceFlavor.dbd"));
    proof {
        g = g.push(("soundambienceflavor"@, "SoundAmbienceFlavor.dbd"@));
        assert(entry_views(m@) =~~= g);
    }
    m.push(("soundkitfallback", "SoundKitFallback.dbd"));
    proof {
        g = g.push(("soundkitfallback"@, "SoundKitFallback.dbd"@));
        assert(entry_views(m@) =~~= g);
    }
    m.push(("spellactivationoverlay", "SpellActivationOverlay.dbd"));
    proof {
        g = g.push(("spellactivationoverlay"@, "SpellActivationOverlay.dbd"@));
        assert(entry_views(m@) =~~= g);
    }
    m.push(("spellclutterimpactmodelcounts", "SpellClutterImpactModelCounts.dbd"));
    proof {
        g = g.push(("spellclutterimpactmodelcounts"@, "SpellClutterImpactModelCounts.dbd"@));
        assert(entry_views(m@) =~~= g);
    }
    m.push(("spelleffectscaling", "SpellEffectScaling.dbd"));
    proof {
        g = g.push(("spelleffectscaling"@, "SpellEffectScaling.dbd"@));
        assert(entry_views(m@) =~~= g);
    }
    m.push(("spellmemorizecost", "SpellMemorizeCost.dbd"));
    proof {
        g = g.push(("spellmemorizecost"@, "SpellMemorizeCost.dbd"@));
        assert(entry_views(m@) =~~= g);
    }
    m.push(("spellrunecost", "SpellRuneCost.dbd"));
    proof {
        g = g.push(("spellrunecost"@, "SpellRuneCost.dbd"@));
        assert(entry_views(m@) =~~= g);
    }
    m.push(("spellvisualkit", "SpellVisualKit.dbd"));
    proof {
        g = g.push(("spellvisualkit"@, "SpellVisualKit.dbd"@));
        assert(entry_views(m@) =~~= g);
    }
    m.push(("stationery", "Stationery.dbd"));
    proof {
        g = g.push(("stationery"@, "Stationery.dbd"@));
        assert(entry_views(m@) =~~= g);
    }
    m.push(("terraintypesounds", "TerrainTypeSounds.dbd"));
    proof {
        g = g.push(("terraintypesounds"@, "TerrainTypeSounds.dbd"@));
        assert(entry_views(m@) =~~= g);
    }
    m.push(("traitedge", "TraitEdge.dbd"));
    proof {
        g = g.push(("traitedge"@, "TraitEdge.dbd"@));
        assert(entry_views(m@) =~~= g);
    }
    m.push(("traittreeloadoutentry", "TraitTreeLoadoutEntry.dbd"));
    proof {
        g = g.push(("traittreeloadoutentry"@, "TraitTreeLoadoutEntry.dbd"@));
        assert(entry_views(m@) =~~= g);
    }
    m.push(("trophytype", "TrophyType.dbd"));
    proof {
        g = g.push(("trophytype"@, "TrophyType.dbd"@));
        assert(entry_views(m@) =~~= g);
    }
    m.push(("uieventtoast", "UIEventToast.dbd"));
    proof {
        g = g.push(("uieventtoast"@, "UIEventToast.dbd"@));
        assert(entry_views(m@) =~~= g);
    }
    m.push(("uimappoi", "UiMapPOI.dbd"));
    proof {
        g = g.push(("uimappoi"@, "UiMapPOI.dbd"@));
        assert(entry_views(m@) =~~= g);
    }
    m.push(("uitextureatlasmember", "UiTextureAtlasMember.dbd"));
    proof {
        g = g.push(("uitextureatlasmember"@, "UiTextureAtlasMember.dbd"@));
        assert(entry_views(m@) =~~= g);
    }
    m.push(("unittestsparse", "UnitTestSparse.dbd"));
    proof {
        g = g.push(("unittestsparse"@, "UnitTestSparse.dbd"@));
        assert(entry_views(m@) =~~= g);
    }
    m.push(("warbandscene", "WarbandScene.dbd"));
    proof {
        g = g.push(("warbandscene"@, "WarbandScene.dbd"@));
        assert(entry_views(m@) =~~= g);
    }
    m.push(("wbpermissions", "WbPermissions.dbd"));
    proof {
        g = g.push(("wbpermissions"@, "WbPermissions.dbd"@));
        assert(entry_views(m@) =~~= g);
    }
    m.push(("worldlayermapset", "WorldLayerMapSet.dbd"));
    proof {
        g = g.push(("worldlayermapset"@, "WorldLayerMapSet.dbd"@));
        assert(entry_views(m@) =~~= g);
    }
    m.push(("contenttuningxexpectedstatmod", "ContentTuningXExpectedStatMod.dbd"));
    proof {
        g = g.push(("contenttuningxexpectedstatmod"@, "ContentTuningXExpectedStatMod.dbd"@));
        assert(entry_views(m@) =~~= g);
    }
    m.push(("itemarmorshield", "ItemArmorShield.dbd"));
    proof {
        g = g.push(("itemarmorshield"@, "ItemArmorShield.dbd"@));
        assert(entry_views(m@) =~~= g);
    }
    m.push(("perksactivityxtag", "PerksActivityXTag.dbd"));
    proof {
        g = g.push(("perksactivityxtag"@, "PerksActivityXTag.dbd"@));
        assert(entry_views(m@) =~~= g);
    }
    m.push(("spellvisualkitareamodel", "SpellVisualKitAreaModel.dbd"));
    proof {
        g = g.push(("spellvisualkitareamodel"@, "SpellVisualKitAreaModel.dbd"@));
        assert(entry_views(m@) =~~= g);
    }
    m.push(("spellvisualkiteffect", "SpellVisualKitEffect.dbd"));
    proof {
        g = g.push(("spellvisualkiteffect"@, "SpellVisualKitEffect.dbd"@));
        assert(entry_views(m@) =~~= g);
        assert(m@.len() == 180);
    }
    m.push(("spellvisualkitmodelattach", "SpellVisualKitModelAttach.dbd"));
    proof {
        g = g.push(("spellvisualkitmodelattach"@, "SpellVisualKitModelAttach.dbd"@));
        assert(entry_views(m@) =~~= g);
    }
    m.push(("spellvisualkitpicker", "SpellVisualKitPicker.dbd"));
    proof {
        g = g.push(("spellvisualkitpicker"@, "SpellVisualKitPicker.dbd"@));
        assert(entry_views(m@) =~~= g);
    }
    m.push(("spellvisualkitpickerentry", "SpellVisualKitPickerEntry.dbd"));
    proof {
        g = g.push(("spellvisualkitpickerentry"@, "SpellVisualKitPickerEntry.dbd"@));
        assert(entry_views(m@) =~~= g);
    }
    m.push(("spellvisualmissile", "SpellVisualMissile.dbd"));
    proof {
        g = g.push(("spellvisualmissile"@, "SpellVisualMissile.dbd"@));
        assert(entry_views(m@) =~~= g);
    }
    m.push(("spellvisualprecasttransitions", "SpellVisualPrecastTransitions.dbd"));
    proof {
        g = g.push(("spellvisualprecasttransitions"@, "SpellVisualPrecastTransitions.dbd"@));
        assert(entry_views(m@) =~~= g);
    }
    m.push(("spellvisualscreeneffect", "SpellVisualScreenEffect.dbd"));
    proof {
        g = g.push(("spellvisualscreeneffect"@, "SpellVisualScreenEffect.dbd"@));
        assert(entry_views(m@) =~~= g);
    }
    m.push(("spellxdescriptionvariables", "SpellXDescriptionVariables.dbd"));
    proof {
        g = g.push(("spellxdescriptionvariables"@, "SpellXDescriptionVariables.dbd"@));
        assert(entry_views(m@) =~~= g);
    }
    m.push(("spellxspellvisual", "SpellXSpellVisual.dbd"));
    proof {
        g = g.push(("spellxspellvisual"@, "SpellXSpellVisual.dbd"@));
        assert(entry_views(m@) =~~= g);
    }
    m.push(("spotlightconditionmap", "SpotLightConditionMap.dbd"));
    proof {
        g = g.push(("spotlightconditionmap"@, "SpotLightConditionMap.dbd"@));
        assert(entry_views(m@) =~~= g);
    }
    m.push(("ssaosettings", "SSAOSettings.dbd"));
    proof {
        g = g.push(("ssaosettings"@, "SSAOSettings.dbd"@));
        assert(entry_views(m@) =~~= g);
    }
    m.push(("stableslotprices", "StableSlotPrices.dbd"));
    proof {
        g = g.push(("stableslotprices"@, "StableSlotPrices.dbd"@));
        assert(entry_views(m@) =~~= g);
    }
    m.push(("startupfiles", "StartupFiles.dbd"));
    proof {
        g = g.push(("startupfiles"@, "StartupFiles.dbd"@));
        assert(entry_views(m@) =~~= g);
    }
    m.push(("startup_strings", "Startup_Strings.dbd"));
    proof {
        g = g.push(("startup_strings"@, "Startup_Strings.dbd"@));
        assert(entry_views(m@) =~~= g);
    }
    m.push(("stringlookups", "StringLookups.dbd"));
    proof {
        g = g.push(("stringlookups"@, "StringLookups.dbd"@));
        assert(entry_views(m@) =~~= g);
    }
    m.push(("summonproperties", "SummonProperties.dbd"));
    proof {
        g = g.push(("summonproperties"@, "SummonProperties.dbd"@));
        assert(entry_views(m@) =~~= g);
    }
    m.push(("tabardbackgroundtextures", "TabardBackgroundTextures.dbd"));
    proof {
        g = g.push(("tabardbackgroundtextures"@, "TabardBackgroundTextures.dbd"@));
        assert(entry_views(m@) =~~= g);
    }
    m.push(("tabardemblemtextures", "TabardEmblemTextures.dbd"));
    proof {
        g = g.push(("tabardemblemtextures"@, "TabardEmblemTextures.dbd"@));
        assert(entry_views(m@) =~~= g);
    }
    m.push(("tactkey", "TactKey.dbd"));
    proof {
        g = g.push(("tactkey"@, "TactKey.dbd"@));
        assert(entry_views(m@) =~~= g);
    }
    m.push(("tactkeylookup", "TactKeyLookup.dbd"));
    proof {
        g = g.push(("tactkeylookup"@, "TactKeyLookup.dbd"@));
        assert(entry_views(m@) =~~= g);
    }
    m.push(("talent", "Talent.dbd"));
    proof {
        g = g.push(("talent"@, "Talent.dbd"@));
        assert(entry_views(m@) =~~= g);
    }
    m.push(("talenttab", "TalentTab.dbd"));
    proof {
        g = g.push(("talenttab"@, "TalentTab.dbd"@));
        assert(entry_views(m@) =~~= g);
    }
    m.push(("talenttreeprimaryspells", "TalentTreePrimarySpells.dbd"));
    proof {
        g = g.push(("talenttreeprimaryspells"@, "TalentTreePrimarySpells.dbd"@));
        assert(entry_views(m@) =~~= g);
    }
    m.push(("taxinodes", "TaxiNodes.dbd"));
    proof {
        g = g.push(("taxinodes"@, "TaxiNodes.dbd"@));
        assert(entry_views(m@) =~~= g);
    }
    m.push(("taxipath", "TaxiPath.dbd"));
    proof {
        g = g.push(("taxipath"@, "TaxiPath.dbd"@));
        assert(entry_views(m@) =~~= g);
    }
    m.push(("taxipathnode", "TaxiPathNode.dbd"));
    proof {
        g = g.push(("taxipathnode"@, "TaxiPathNode.dbd"@));
        assert(entry_views(m@) =~~= g);
    }
    m.push(("teamcontributionpoints", "TeamContributionPoints.dbd"));
    proof {
        g = g.push(("teamcontributionpoints"@, "TeamContributionPoints.dbd"@));
        assert(entry_views(m@) =~~= g);
    }
    m.push(("terraincolorgradingramp", "TerrainColorGradingRamp.dbd"));
    proof {
        g = g.push(("terraincolorgradingramp"@, "TerrainColorGradingRamp.dbd"@));
        assert(entry_views(m@) =~~= g);
    }
    m.push(("terrainmaterial", "TerrainMaterial.dbd"));
    proof {
        g = g.push(("terrainmaterial"@, "TerrainMaterial.dbd"@));
        assert(entry_views(m@) =~~= g);
    }
    m.push(("terraintype", "TerrainType.dbd"));
    proof {
        g = g.push(("terraintype"@, "TerrainType.dbd"@));
        assert(entry_views(m@) =~~= g);
    }
    m.push(("textureblendset", "TextureBlendSet.dbd"));
    proof {
        g = g.push(("textureblendset"@, "TextureBlendSet.dbd"@));
        assert(entry_views(m@) =~~= g);
        assert(m@.len() == 210);
    }
    proof {
        reveal(catalog_data_e);
        assert(g == catalog_data_e());
    }
    m
}

/// One slice of the embedded catalog data; it carries exactly the
/// pairs its specification-level slice states.
fn catalog_entries_f() -> (m: Vec<(&'static str, &'static str)>)
    ensures
        m@.len() == 184,
        entry_views(m@) == catalog_data_f(),
{
    let mut m: Vec<(&'static str, &'static str)> = Vec::new();
    let ghost mut g: Seq<(Seq<char>, Seq<char>)> = Seq::empty();
    proof {
        assert(entry_views(m@) =~~= g);
    }
    m.push(("texturefiledata", "TextureFileData.dbd"));
    proof {
        g = g.push(("texturefiledata"@, "TextureFileData.dbd"@));
        assert(entry_views(m@) =~~= g);
    }
    m.push(("tiertransition", "TierTransition.dbd"));
    proof {
        g = g.push(("tiertransition"@, "TierTransition.dbd"@));
        assert(entry_views(m@) =~~= g);
    }
    m.push(("timeeventdata", "TimeEventData.dbd"));
    proof {
        g = g.push(("timeeventdata"@, "TimeEventData.dbd"@));
        assert(entry_views(m@) =~~= g);
    }
    m.push(("totemcategory", "TotemCategory.dbd"));
    proof {
        g = g.push(("totemcategory"@, "TotemCategory.dbd"@));
        assert(entry_views(m@) =~~= g);
    }
    m.push(("toy", "Toy.dbd"));
    proof {
        g = g.push(("toy"@, "Toy.dbd"@));
        assert(entry_views(m@) =~~= g);
    }
    m.push(("tradeskillcategory", "TradeSkillCategory.dbd"));
    proof {
        g = g.push(("tradeskillcategory"@, "TradeSkillCategory.dbd"@));
        assert(entry_views(m@) =~~= g);
    }
    m.push(("tradeskillitem", "TradeSkillItem.dbd"));
    proof {
        g = g.push(("tradeskillitem"@, "TradeSkillItem.dbd"@));
        assert(entry_views(m@) =~~= g);
    }
    m.push(("traitcond", "TraitCond.dbd"));
    proof {
        g = g.push(("traitcond"@, "TraitCond.dbd"@));
        assert(entry_views(m@) =~~= g);
    }
    m.push(("traitcondaccountelement", "TraitCondAccountElement.dbd"));
    proof {
        g = g.push(("traitcondaccountelement"@, "TraitCondAccountElement.dbd"@));
        assert(entry_views(m@) =~~= g);
    }
    m.push(("traitcost", "TraitCost.dbd"));
    proof {
        g = g.push(("traitcost"@, "TraitCost.dbd"@));
        assert(entry_views(m@) =~~= g);
    }
    m.push(("traitcostdefinition", "TraitCostDefinition.dbd"));
    proof {
        g = g.push(("traitcostdefinition"@, "TraitCostDefinition.dbd"@));
        assert(entry_views(m@) =~~= g);
    }
    m.push(("traitcurrency", "TraitCurrency.dbd"));
    proof {
        g = g.push(("traitcurrency"@, "TraitCurrency.dbd"@));
        assert(entry_views(m@) =~~= g);
    }
    m.push(("traitcurrencysource", "TraitCurrencySource.dbd"));
    proof {
        g = g.push(("traitcurrencysource"@, "TraitCurrencySource.dbd"@));
        assert(entry_views(m@) =~~= g);
    }
    m.push(("traitdefinition", "TraitDefinition.dbd"));
    proof {
        g = g.push(("traitdefinition"@, "TraitDefinition.dbd"@));
        assert(entry_views(m@) =~~= g);
    }
    m.push(("traitdefinitioneffectpoints", "TraitDefinitionEffectPoints.dbd"));
    proof {
        g = g.push(("traitdefinitioneffectpoints"@, "TraitDefinitionEffectPoints.dbd"@));
        assert(entry_views(m@) =~~= g);
    }
    m.push(("traitnode", "TraitNode.dbd"));
    proof {
        g = g.push(("traitnode"@, "TraitNode.dbd"@));
        assert(entry_views(m@) =~~= g);
    }
    m.push(("traitnodeentry", "TraitNodeEntry.dbd"));
    proof {
        g = g.push(("traitnodeentry"@, "TraitNodeEntry.dbd"@));
        assert(entry_views(m@) =~~= g);
    }
    m.push(("traitnodeentryxtraitcond", "TraitNodeEntryXTraitCond.dbd"));
    proof {
        g = g.push(("traitnodeentryxtraitcond"@, "TraitNodeEntryXTraitCond.dbd"@));
        assert(entry_views(m@) =~~= g);
    }
    m.push(("traitnodeentryxtraitcost", "TraitNodeEntryXTraitCost.dbd"));
    proof {
        g = g.push(("traitnodeentryxtraitcost"@, "TraitNodeEntryXTraitCost.dbd"@));
        assert(entry_views(m@) =~~= g);
    }
    m.push(("traitnodegroup", "TraitNodeGroup.dbd"));
    proof {
        g = g.push(("traitnodegroup"@, "TraitNodeGroup.dbd"@));
        assert(entry_views(m@) =~~= g);
    }
    m.push(("traitnodegroupxtraitcond", "TraitNodeGroupXTraitCond.dbd"));
    proof {
        g = g.push(("traitnodegroupxtraitcond"@, "TraitNodeGroupXTraitCond.dbd"@));
        assert(entry_views(m@) =~~= g);
    }
    m.push(("traitnodegroupxtraitcost", "TraitNodeGroupXTraitCost.dbd"));
    proof {
        g = g.push(("traitnodegroupxtraitcost"@, "TraitNodeGroupXTraitCost.dbd"@));
        assert(entry_views(m@) =~~= g);
    }
    m.push(("traitnodegroupxtraitnode", "TraitNodeGroupXTraitNode.dbd"));
    proof {
        g = g.push(("traitnodegroupxtraitnode"@, "TraitNodeGroupXTraitNode.dbd"@));
        assert(entry_views(m@) =~~= g);
    }
    m.push(("traitnodextraitcond", "TraitNodeXTraitCond.dbd"));
    proof {
        g = g.push(("traitnodextraitcond"@, "TraitNodeXTraitCond.dbd"@));
        assert(entry_views(m@) =~~= g);
    }
    m.push(("traitnodextraitcost", "TraitNodeXTraitCost.dbd"));
    proof {
        g = g.push(("traitnodextraitcost"@, "TraitNodeXTraitCost.dbd"@));
        assert(entry_views(m@) =~~= g);
    }
    m.push(("traitnodextraitnodeentry", "TraitNodeXTraitNodeEntry.dbd"));
    proof {
        g = g.push(("traitnodextraitnodeentry"@, "TraitNodeXTraitNodeEntry.dbd"@));
        assert(entry_views(m@) =~~= g);
    }
    m.push(("traitsubtree", "TraitSubTree.dbd"));
    proof {
        g = g.push(("traitsubtree"@, "TraitSubTree.dbd"@));
        assert(entry_views(m@) =~~= g);
    }
    m.push(("traitsystem", "TraitSystem.dbd"));
    proof {
        g = g.push(("traitsystem"@, "TraitSystem.dbd"@));
        assert(entry_views(m@) =~~= g);
    }
    m.push(("traittree", "TraitTree.dbd"));
    proof {
        g = g.push(("traittree"@, "TraitTree.dbd"@));
        assert(entry_views(m@) =~~= g);
    }
    m.push(("traittreeloadout", "TraitTreeLoadout.dbd"));
    proof {
        g = g.push(("traittreeloadout"@, "TraitTreeLoadout.dbd"@));
        assert(entry_views(m@) =~~= g);
        assert(m@.len() == 30);
    }
    m.push(("traittreextraitcost", "TraitTreeXTraitCost.dbd"));
    proof {
        g = g.push(("traittreextraitcost"@, "TraitTreeXTraitCost.dbd"@));
        assert(entry_views(m@) =~~= g);
    }
    m.push(("traittreextraitcurrency", "TraitTreeXTraitCurrency.dbd"));
    proof {
        g = g.push(("traittreextraitcurrency"@, "TraitTreeXTraitCurrency.dbd"@));
        assert(entry_views(m@) =~~= g);
    }
    m.push(("transformmatrix", "TransformMatrix.dbd"));
    proof {
        g = g.push(("transformmatrix"@, "TransformMatrix.dbd"@));
        assert(entry_views(m@) =~~= g);
    }
    m.push(("transmogdefaultlevel", "TransmogDefaultLevel.dbd"));
    proof {
        g = g.push(("transmogdefaultlevel"@, "TransmogDefaultLevel.dbd"@));
        assert(entry_views(m@) =~~= g);
    }
    m.push(("transmogholiday", "TransmogHoliday.dbd"));
    proof {
        g = g.push(("transmogholiday"@, "TransmogHoliday.dbd"@));
        assert(entry_views(m@) =~~= g);
    }
    m.push(("transmogillusion", "TransmogIllusion.dbd"));
    proof {
        g = g.push(("transmogillusion"@, "TransmogIllusion.dbd"@));
        assert(entry_views(m@) =~~= g);
    }
    m.push(("transmogset", "TransmogSet.dbd"));
    proof {
        g = g.push(("transmogset"@, "TransmogSet.dbd"@));
        assert(entry_views(m@) =~~= g);
    }
    m.push(("transmogsetgroup", "TransmogSetGroup.dbd"));
    proof {
        g = g.push(("transmogsetgroup"@, "TransmogSetGroup.dbd"@));
        assert(entry_views(m@) =~~= g);
    }
    m.push(("transmogsetitem", "TransmogSetItem.dbd"));
    proof {
        g = g.push(("transmogsetitem"@, "TransmogSetItem.dbd"@));
        assert(entry_views(m@) =~~= g);
    }
    m.push(("transportanimation", "TransportAnimation.dbd"));
    proof {
        g = g.push(("transportanimation"@, "TransportAnimation.dbd"@));
        assert(entry_views(m@) =~~= g);
    }
    m.push(("transportphysics", "TransportPhysics.dbd"));
    proof {
        g = g.push(("transportphysics"@, "TransportPhysics.dbd"@));
        assert(entry_views(m@) =~~= g);
    }
    m.push(("transportrotation", "TransportRotation.dbd"));
    proof {
        g = g.push(("transportrotation"@, "TransportRotation.dbd"@));
        assert(entry_views(m@) =~~= g);
    }
    m.push(("treasure", "Treasure.dbd"));
    proof {
        g = g.push(("treasure"@, "Treasure.dbd"@));
        assert(entry_views(m@) =~~= g);
    }
    m.push(("trophy", "Trophy.dbd"));
    proof {
        g = g.push(("trophy"@, "Trophy.dbd"@));
        assert(entry_views(m@) =~~= g);
    }
    m.push(("trophyinstance", "TrophyInstance.dbd"));
    proof {
        g = g.push(("trophyinstance"@, "TrophyInstance.dbd"@));
        assert(entry_views(m@) =~~= g);
    }
    m.push(("uiarrowcallout", "UIArrowCallout.dbd"));
    proof {
        g = g.push(("uiarrowcallout"@, "UIArrowCallout.dbd"@));
        assert(entry_views(m@) =~~= g);
    }
    m.push(("uibutton", "UIButton.dbd"));
    proof {
        g = g.push(("uibutton"@, "UIButton.dbd"@));
        assert(entry_views(m@) =~~= g);
    }
    m.push(("uicamera", "UiCamera.dbd"));
    proof {
        g = g.push(("uicamera"@, "UiCamera.dbd"@));
        assert(entry_views(m@) =~~= g);
    }
    m.push(("uicameratype", "UiCameraType.dbd"));
    proof {
        g = g.push(("uicameratype"@, "UiCameraType.dbd"@));
        assert(entry_views(m@) =~~= g);
    }
    m.push(("uicamfbacktalkingheadchrrace", "UiCamFbackTalkingHeadChrRace.dbd"));
    proof {
        g = g.push(("uicamfbacktalkingheadchrrace"@, "UiCamFbackTalkingHeadChrRace.dbd"@));
        assert(entry_views(m@) =~~= g);
    }
    m.push(("uicamfbacktransmogchrrace", "UiCamFbackTransmogChrRace.dbd"));
    proof {
        g = g.push(("uicamfbacktransmogchrrace"@, "UiCamFbackTransmogChrRace.dbd"@));
        assert(entry_views(m@) =~~= g);
    }
    m.push(("uicamfbacktransmogweapon", "UiCamFbackTransmogWeapon.dbd"));
    proof {
        g = g.push(("uicamfbacktransmogweapon"@, "UiCamFbackTransmogWeapon.dbd"@));
        assert(entry_views(m@) =~~= g);
    }
    m.push(("uicanvas", "UiCanvas.dbd"));
    proof {
        g = g.push(("uicanvas"@, "UiCanvas.dbd"@));
        assert(entry_views(m@) =~~= g);
    }
    m.push(("uichromietimeexpansioninfo", "UIChromieTimeExpansionInfo.dbd"));
    proof {
        g = g.push(("uichromietimeexpansioninfo"@, "UIChromieTimeExpansionInfo.dbd"@));
        assert(entry_views(m@) =~~= g);
    }
    m.push(("uicinematicintroinfo", "UICinematicIntroInfo.dbd"));
    proof {
        g = g.push(("uicinematicintroinfo"@, "UICinematicIntroInfo.dbd"@));
        assert(entry_views(m@) =~~= g);
    }
    m.push(("uicovenantability", "UICovenantAbility.dbd"));
    proof {
        g = g.push(("uicovenantability"@, "UICovenantAbility.dbd"@));
        assert(entry_views(m@) =~~= g);
    }
    m.push(("uicovenantdisplayinfo", "UiCovenantDisplayInfo.dbd"));
    proof {
        g = g.push(("uicovenantdisplayinfo"@, "UiCovenantDisplayInfo.dbd"@));
        assert(entry_views(m@) =~~= g);
    }
    m.push(("uicovenantpreview", "UICovenantPreview.dbd"));
    proof {
        g = g.push(("uicovenantpreview"@, "UICovenantPreview.dbd"@));
        assert(entry_views(m@) =~~= g);
    }
    m.push(("uideadlydebuff", "UIDeadlyDebuff.dbd"));
    proof {
        g = g.push(("uideadlydebuff"@, "UIDeadlyDebuff.dbd"@));
        assert(entry_views(m@) =~~= g);
    }
    m.push(("uidungeonscorerarity", "UIDungeonScoreRarity.dbd"));
    proof {
        g = g.push(("uidungeonscorerarity"@, "UIDungeonScoreRarity.dbd"@));
        assert(entry_views(m@) =~~= g);
        assert(m@.len() == 60);
    }
    m.push(("uiexpansiondisplayinfo", "UIExpansionDisplayInfo.dbd"));
    proof {
        g = g.push(("uiexpansiondisplayinfo"@, "UIExpansionDisplayInfo.dbd"@));
        assert(entry_views(m@) =~~= g);
    }
    m.push(("uiexpansiondisplayinfoicon", "UIExpansionDisplayInfoIcon.dbd"));
    proof {
        g = g.push(("uiexpansiondisplayinfoicon"@, "UIExpansionDisplayInfoIcon.dbd"@));
        assert(entry_views(m@) =~~= g);
    }
    m.push(("uigenericwidgetdisplay", "UIGenericWidgetDisplay.dbd"));
    proof {
        g = g.push(("uigenericwidgetdisplay"@, "UIGenericWidgetDisplay.dbd"@));
        assert(entry_views(m@) =~~= g);
    }
    m.push(("uiiteminteraction", "UiItemInteraction.dbd"));
    proof {
        g = g.push(("uiiteminteraction"@, "UiItemInteraction.dbd"@));
        assert(entry_views(m@) =~~= g);
    }
    m.push(("uimap", "UiMap.dbd"));
    proof {
        g = g.push(("uimap"@, "UiMap.dbd"@));
        assert(entry_views(m@) =~~= g);
    }
    m.push(("uimapart", "UiMapArt.dbd"));
    proof {
        g = g.push(("uimapart"@, "UiMapArt.dbd"@));
        assert(entry_views(m@) =~~= g);
    }
    m.push(("uimapartstylelayer", "UiMapArtStyleLayer.dbd"));
    proof {
        g = g.push(("uimapartstylelayer"@, "UiMapArtStyleLayer.dbd"@));
        assert(entry_views(m@) =~~= g);
    }
    m.push(("uimaparttile", "UiMapArtTile.dbd"));
    proof {
        g = g.push(("uimaparttile"@, "UiMapArtTile.dbd"@));
        assert(entry_views(m@) =~~= g);
    }
    m.push(("uimapassignment", "UiMapAssignment.dbd"));
    proof {
        g = g.push(("uimapassignment"@, "UiMapAssignment.dbd"@));
        assert(entry_views(m@) =~~= g);
    }
    m.push(("uimapfogofwar", "UiMapFogOfWar.dbd"));
    proof {
        g = g.push(("uimapfogofwar"@, "UiMapFogOfWar.dbd"@));
        assert(entry_views(m@) =~~= g);
    }
    m.push(("uimapfogofwarvisualization", "UiMapFogOfWarVisualization.dbd"));
    proof {
        g = g.push(("uimapfogofwarvisualization"@, "UiMapFogOfWarVisualization.dbd"@));
        assert(entry_views(m@) =~~= g);
    }
    m.push(("uimapgroup", "UiMapGroup.dbd"));
    proof {
        g = g.push(("uimapgroup"@, "UiMapGroup.dbd"@));
        assert(entry_views(m@) =~~= g);
    }
    m.push(("uimapgroupmember", "UiMapGroupMember.dbd"));
    proof {
        g = g.push(("uimapgroupmember"@, "UiMapGroupMember.dbd"@));
        assert(entry_views(m@) =~~= g);
    }
    m.push(("uimaplink", "UiMapLink.dbd"));
    proof {
        g = g.push(("uimaplink"@, "UiMapLink.dbd"@));
        assert(entry_views(m@) =~~= g);
    }
    m.push(("uimappininfo", "UIMapPinInfo.dbd"));
    proof {
        g = g.push(("uimappininfo"@, "UIMapPinInfo.dbd"@));
        assert(entry_views(m@) =~~= g);
    }
    m.push(("uimapxmapart", "UiMapXMapArt.dbd"));
    proof {
        g = g.push(("uimapxmapart"@, "UiMapXMapArt.dbd"@));
        assert(entry_views(m@) =~~= g);
    }
    m.push(("uimodelscene", "UiModelScene.dbd"));
    proof {
        g = g.push(("uimodelscene"@, "UiModelScene.dbd"@));
        assert(entry_views(m@) =~~= g);
    }
    m.push(("uimodelsceneactor", "UiModelSceneActor.dbd"));
    proof {
        g = g.push(("uimodelsceneactor"@, "UiModelSceneActor.dbd"@));
        assert(entry_views(m@) =~~= g);
    }
    m.push(("uimodelsceneactordisplay", "UiModelSceneActorDisplay.dbd"));
    proof {
        g = g.push(("uimodelsceneactordisplay"@, "UiModelSceneActorDisplay.dbd"@));
        assert(entry_views(m@) =~~= g);
    }
    m.push(("uimodelscenecamera", "UiModelSceneCamera.dbd"));
    proof {
        g = g.push(("uimodelscenecamera"@, "UiModelSceneCamera.dbd"@));
        assert(entry_views(m@) =~~= g);
    }
    m.push(("uimodifiedinstance", "UIModifiedInstance.dbd"));
    proof {
        g = g.push(("uimodifiedinstance"@, "UIModifiedInstance.dbd"@));
        assert(entry_views(m@) =~~= g);
    }
    m.push(("uipartypose", "UiPartyPose.dbd"));
    proof {
        g = g.push(("uipartypose"@, "UiPartyPose.dbd"@));
        assert(entry_views(m@) =~~= g);
    }
    m.push(("uiquestdetailstheme", "UiQuestDetailsTheme.dbd"));
    proof {
        g = g.push(("uiquestdetailstheme"@, "UiQuestDetailsTheme.dbd"@));
        assert(entry_views(m@) =~~= g);
    }
    m.push(("uiscriptedanimationeffect", "UIScriptedAnimationEffect.dbd"));
    proof {
        g = g.push(("uiscriptedanimationeffect"@, "UIScriptedAnimationEffect.dbd"@));
        assert(entry_views(m@) =~~= g);
    }
    m.push(("uisoundlookups", "UISoundLookups.dbd"));
    proof {
        g = g.push(("uisoundlookups"@, "UISoundLookups.dbd"@));
        assert(entry_views(m@) =~~= g);
    }
    m.push(("uisplashscreen", "UISplashScreen.dbd"));
    proof {
        g = g.push(("uisplashscreen"@, "UISplashScreen.dbd"@));
        assert(entry_views(m@) =~~= g);
    }
    m.push(("uitextureatlas", "UiTextureAtlas.dbd"));
    proof {
        g = g.push(("uitextureatlas"@, "UiTextureAtlas.dbd"@));
        assert(entry_views(m@) =~~= g);
    }
    m.push(("uitextureatlaselement", "UiTextureAtlasElement.dbd"));
    proof {
        g = g.push(("uitextureatlaselement"@, "UiTextureAtlasElement.dbd"@));
        assert(entry_views(m@) =~~= g);
    }
    m.push(("uitextureatlaselementoverride", "UiTextureAtlasElementOverride.dbd"));
    proof {
        g = g.push(("uitextureatlaselementoverride"@, "UiTextureAtlasElementOverride.dbd"@));
        assert(entry_views(m@) =~~= g);
    }
    m.push(("uitextureatlaselementslicedata", "UiTextureAtlasElementSliceData.dbd"));
    proof {
        g = g.push(("uitextureatlaselementslicedata"@, "UiTextureAtlasElementSliceData.dbd"@));
        assert(entry_views(m@) =~~= g);
        assert(m@.len() == 90);
    }
    m.push(("uitexturekit", "UiTextureKit.dbd"));
    proof {
        g = g.push(("uitexturekit"@, "UiTextureKit.dbd"@));
        assert(entry_views(m@) =~~= g);
    }
    m.push(("uiweeklyreward", "UiWeeklyReward.dbd"));
    proof {
        g = g.push(("uiweeklyreward"@, "UiWeeklyReward.dbd"@));
        assert(entry_views(m@) =~~= g);
    }
    m.push(("uiwidget", "UiWidget.dbd"));
    proof {
        g = g.push(("uiwidget"@, "UiWidget.dbd"@));
        assert(entry_views(m@) =~~= g);
    }
    m.push(("uiwidgetconstantsource", "UiWidgetConstantSource.dbd"));
    proof {
        g = g.push(("uiwidgetconstantsource"@, "UiWidgetConstantSource.dbd"@));
        assert(entry_views(m@) =~~= g);
    }
    m.push(("uiwidgetdatasource", "UiWidgetDataSource.dbd"));
    proof {
        g = g.push(("uiwidgetdatasource"@, "UiWidgetDataSource.dbd"@));
        assert(entry_views(m@) =~~= g);
    }
    m.push(("uiwidgetmap", "UiWidgetMap.dbd"));
    proof {
        g = g.push(("uiwidgetmap"@, "UiWidgetMap.dbd"@));
        assert(entry_views(m@) =~~= g);
    }
    m.push(("uiwidgetset", "UiWidgetSet.dbd"));
    proof {
        g = g.push(("uiwidgetset"@, "UiWidgetSet.dbd"@));
        assert(entry_views(m@) =~~= g);
    }
    m.push(("uiwidgetstringsource", "UiWidgetStringSource.dbd"));
    proof {
        g = g.push(("uiwidgetstringsource"@, "UiWidgetStringSource.dbd"@));
        assert(entry_views(m@) =~~= g);
    }
    m.push(("uiwidgetvistypedatareq", "UiWidgetVisTypeDataReq.dbd"));
    proof {
        g = g.push(("uiwidgetvistypedatareq"@, "UiWidgetVisTypeDataReq.dbd"@));
        assert(entry_views(m@) =~~= g);
    }
    m.push(("uiwidgetvisualization", "UiWidgetVisualization.dbd"));
    proof {
        g = g.push(("uiwidgetvisualization"@, "UiWidgetVisualization.dbd"@));
        assert(entry_views(m@) =~~= g);
    }
    m.push(("uiwidgetxwidgetset", "UiWidgetXWidgetSet.dbd"));
    proof {
        g = g.push(("uiwidgetxwidgetset"@, "UiWidgetXWidgetSet.dbd"@));
        assert(entry_views(m@) =~~= g);
    }
    m.push(("unitblood", "UnitBlood.dbd"));
    proof {
        g = g.push(("unitblood"@, "UnitBlood.dbd"@));
        assert(entry_views(m@) =~~= g);
    }
    m.push(("unitbloodlevels", "UnitBloodLevels.dbd"));
    proof {
        g = g.push(("unitbloodlevels"@, "UnitBloodLevels.dbd"@));
        assert(entry_views(m@) =~~= g);
    }
    m.push(("unitcondition", "UnitCondition.dbd"));
    proof {
        g = g.push(("unitcondition"@, "UnitCondition.dbd"@));
        assert(entry_views(m@) =~~= g);
    }
    m.push(("unitpowerbar", "UnitPowerBar.dbd"));
    proof {
        g = g.push(("unitpowerbar"@, "UnitPowerBar.dbd"@));
        assert(entry_views(m@) =~~= g);
    }
    m.push(("unittest", "UnitTest.dbd"));
    proof {
        g = g.push(("unittest"@, "UnitTest.dbd"@));
        assert(entry_views(m@) =~~= g);
    }
    m.push(("vehicle", "Vehicle.dbd"));
    proof {
        g = g.push(("vehicle"@, "Vehicle.dbd"@));
        assert(entry_views(m@) =~~= g);
    }
    m.push(("vehiclepoitype", "VehiclePOIType.dbd"));
    proof {
        g = g.push(("vehiclepoitype"@, "VehiclePOIType.dbd"@));
        assert(entry_views(m@) =~~= g);
    }
    m.push(("vehicleseat", "VehicleSeat.dbd"));
    proof {
        g = g.push(("vehicleseat"@, "VehicleSeat.dbd"@));
        assert(entry_views(m@) =~~= g);
    }
    m.push(("vehicleuiindicator", "VehicleUIIndicator.dbd"));
    proof {
        g = g.push(("vehicleuiindicator"@, "VehicleUIIndicator.dbd"@));
        assert(entry_views(m@) =~~= g);
    }
    m.push(("vehicleuiindseat", "VehicleUIIndSeat.dbd"));
    proof {
        g = g.push(("vehicleuiindseat"@, "VehicleUIIndSeat.dbd"@));
        assert(entry_views(m@) =~~= g);
    }
    m.push(("videohardware", "VideoHardware.dbd"));
    proof {
        g = g.push(("videohardware"@, "VideoHardware.dbd"@));
        assert(entry_views(m@) =~~= g);
    }
    m.push(("vignette", "Vignette.dbd"));
    proof {
        g = g.push(("vignette"@, "Vignette.dbd"@));
        assert(entry_views(m@) =~~= g);
    }
    m.push(("vignetteuiwidgetset", "VignetteUiWidgetSet.dbd"));
    proof {
        g = g.push(("vignetteuiwidgetset"@, "VignetteUiWidgetSet.dbd"@));
        assert(entry_views(m@) =~~= g);
    }
    m.push(("virtualattachment", "VirtualAttachment.dbd"));
    proof {
        g = g.push(("virtualattachment"@, "VirtualAttachment.dbd"@));
        assert(entry_views(m@) =~~= g);
    }
    m.push(("virtualattachmentcustomization", "VirtualAttachmentCustomization.dbd"));
    proof {
        g = g.push(("virtualattachmentcustomization"@, "VirtualAttachmentCustomization.dbd"@));
        assert(entry_views(m@) =~~= g);
    }
    m.push(("vocaluisounds", "VocalUISounds.dbd"));
    proof {
        g = g.push(("vocaluisounds"@, "VocalUISounds.dbd"@));
        assert(entry_views(m@) =~~= g);
    }
    m.push(("voiceoverpriority", "VoiceOverPriority.dbd"));
    proof {
        g = g.push(("voiceoverpriority"@, "VoiceOverPriority.dbd"@));
        assert(entry_views(m@) =~~= g);
    }
    m.push(("volumefogcondition", "VolumeFogCondition.dbd"));
    proof {
        g = g.push(("volumefogcondition"@, "VolumeFogCondition.dbd"@));
        assert(entry_views(m@) =~~= g);
    }
    m.push(("vw_mobilespell", "VW_MobileSpell.dbd"));
    proof {
        g = g.push(("vw_mobilespell"@, "VW_MobileSpell.dbd"@));
        assert(entry_views(m@) =~~= g);
        assert(m@.len() == 120);
    }
    m.push(("warbandplacementdisplayinfo", "WarbandPlacementDisplayInfo.dbd"));
    proof {
        g = g.push(("warbandplacementdisplayinfo"@, "WarbandPlacementDisplayInfo.dbd"@));
        assert(entry_views(m@) =~~= g);
    }
    m.push(("warbandsceneanimation", "WarbandSceneAnimation.dbd"));
    proof {
        g = g.push(("warbandsceneanimation"@, "WarbandSceneAnimation.dbd"@));
        assert(entry_views(m@) =~~= g);
    }
    m.push(("warbandsceneanimchrspec", "WarbandSceneAnimChrSpec.dbd"));
    proof {
        g = g.push(("warbandsceneanimchrspec"@, "WarbandSceneAnimChrSpec.dbd"@));
        assert(entry_views(m@) =~~= g);
    }
    m.push(("warbandsceneplacement", "WarbandScenePlacement.dbd"));
    proof {
        g = g.push(("warbandsceneplacement"@, "WarbandScenePlacement.dbd"@));
        assert(entry_views(m@) =~~= g);
    }
    m.push(("warbandsceneplacementfilterreq", "WarbandScenePlacementFilterReq.dbd"));
    proof {
        g = g.push(("warbandsceneplacementfilterreq"@, "WarbandScenePlacementFilterReq.dbd"@));
        assert(entry_views(m@) =~~= g);
    }
    m.push(("warbandsceneplacementoption", "WarbandScenePlacementOption.dbd"));
    proof {
        g = g.push(("warbandsceneplacementoption"@, "WarbandScenePlacementOption.dbd"@));
        assert(entry_views(m@) =~~= g);
    }
    m.push(("warbandsceneplcmntanimoverride", "WarbandScenePlcmntAnimOverride.dbd"));
    proof {
        g = g.push(("warbandsceneplcmntanimoverride"@, "WarbandScenePlcmntAnimOverride.dbd"@));
        assert(entry_views(m@) =~~= g);
    }
    m.push(("warbandscenesourceinfo", "WarbandSceneSourceInfo.dbd"));
    proof {
        g = g.push(("warbandscenesourceinfo"@, "WarbandSceneSourceInfo.dbd"@));
        assert(entry_views(m@) =~~= g);
    }
    m.push(("waterfalldata", "WaterfallData.dbd"));
    proof {
        g = g.push(("waterfalldata"@, "WaterfallData.dbd"@));
        assert(entry_views(m@) =~~= g);
    }
    m.push(("waypointedge", "WaypointEdge.dbd"));
    proof {
        g = g.push(("waypointedge"@, "WaypointEdge.dbd"@));
        assert(entry_views(m@) =~~= g);
    }
    m.push(("waypointmapvolume", "WaypointMapVolume.dbd"));
    proof {
        g = g.push(("waypointmapvolume"@, "WaypointMapVolume.dbd"@));
        assert(entry_views(m@) =~~= g);
    }
    m.push(("waypointnode", "WaypointNode.dbd"));
    proof {
        g = g.push(("waypointnode"@, "WaypointNode.dbd"@));
        assert(entry_views(m@) =~~= g);
    }
    m.push(("waypointsafelocs", "WaypointSafeLocs.dbd"));
    proof {
        g = g.push(("waypointsafelocs"@, "WaypointSafeLocs.dbd"@));
        assert(entry_views(m@) =~~= g);
    }
    m.push(("wbaccesscontrollist", "WbAccessControlList.dbd"));
    proof {
        g = g.push(("wbaccesscontrollist"@, "WbAccessControlList.dbd"@));
        assert(entry_views(m@) =~~= g);
    }
    m.push(("wbcertblacklist", "WbCertBlacklist.dbd"));
    proof {
        g = g.push(("wbcertblacklist"@, "WbCertBlacklist.dbd"@));
        assert(entry_views(m@) =~~= g);
    }
    m.push(("wbcertwhitelist", "WbCertWhitelist.dbd"));
    proof {
        g = g.push(("wbcertwhitelist"@, "WbCertWhitelist.dbd"@));
        assert(entry_views(m@) =~~= g);
    }
    m.push(("weaponimpactsounds", "WeaponImpactSounds.dbd"));
    proof {
        g = g.push(("weaponimpactsounds"@, "WeaponImpactSounds.dbd"@));
        assert(entry_views(m@) =~~= g);
    }
    m.push(("weaponswingsounds2", "WeaponSwingSounds2.dbd"));
    proof {
        g = g.push(("weaponswingsounds2"@, "WeaponSwingSounds2.dbd"@));
        assert(entry_views(m@) =~~= g);
    }
    m.push(("weapontrail", "WeaponTrail.dbd"));
    proof {
        g = g.push(("weapontrail"@, "WeaponTrail.dbd"@));
        assert(entry_views(m@) =~~= g);
    }
    m.push(("weapontrailmodeldef", "WeaponTrailModelDef.dbd"));
    proof {
        g = g.push(("weapontrailmodeldef"@, "WeaponTrailModelDef.dbd"@));
        assert(entry_views(m@) =~~= g);
    }
    m.push(("weapontrailparam", "WeaponTrailParam.dbd"));
    proof {
        g = g.push(("weapontrailparam"@, "WeaponTrailParam.dbd"@));
        assert(entry_views(m@) =~~= g);
    }
    m.push(("weather", "Weather.dbd"));
    proof {
        g = g.push(("weather"@, "Weather.dbd"@));
        assert(entry_views(m@) =~~= g);
    }
    m.push(("weatherxparticulate", "WeatherXParticulate.dbd"));
    proof {
        g = g.push(("weatherxparticulate"@, "WeatherXParticulate.dbd"@));
        assert(entry_views(m@) =~~= g);
    }
    m.push(("weeklyrewardchestactivitytier", "WeeklyRewardChestActivityTier.dbd"));
    proof {
        g = g.push(("weeklyrewardchestactivitytier"@, "WeeklyRewardChestActivityTier.dbd"@));
        assert(entry_views(m@) =~~= g);
    }
    m.push(("weeklyrewardchestthreshold", "WeeklyRewardChestThreshold.dbd"));
    proof {
        g = g.push(("weeklyrewardchestthreshold"@, "WeeklyRewardChestThreshold.dbd"@));
        assert(entry_views(m@) =~~= g);
    }
    m.push(("windsettings", "WindSettings.dbd"));
    proof {
        g = g.push(("windsettings"@, "WindSettings.dbd"@));
        assert(entry_views(m@) =~~= g);
    }
    m.push(("wmoareatable", "WMOAreaTable.dbd"));
    proof {
        g = g.push(("wmoareatable"@, "WMOAreaTable.dbd"@));
        assert(entry_views(m@) =~~= g);
    }
    m.push(("wmominimaptexture", "WMOMinimapTexture.dbd"));
    proof {
        g = g.push(("wmominimaptexture"@, "WMOMinimapTexture.dbd"@));
        assert(entry_views(m@) =~~= g);
    }
    m.push(("worldbosslockout", "WorldBossLockout.dbd"));
    proof {
        g = g.push(("worldbosslockout"@, "WorldBossLockout.dbd"@));
        assert(entry_views(m@) =~~= g);
    }
    m.push(("worldchunksounds", "WorldChunkSounds.dbd"));
    proof {
        g = g.push(("worldchunksounds"@, "WorldChunkSounds.dbd"@));
        assert(entry_views(m@) =~~= g);
        assert(m@.len() == 150);
    }
    m.push(("worldeffect", "WorldEffect.dbd"));
    proof {
        g = g.push(("worldeffect"@, "WorldEffect.dbd"@));
        assert(entry_views(m@) =~~= g);
    }
    m.push(("worldelapsedtimer", "WorldElapsedTimer.dbd"));
    proof {
        g = g.push(("worldelapsedtimer"@, "WorldElapsedTimer.dbd"@));
        assert(entry_views(m@) =~~= g);
    }
    m.push(("worldmaparea", "WorldMapArea.dbd"));
    proof {
        g = g.push(("worldmaparea"@, "WorldMapArea.dbd"@));
        assert(entry_views(m@) =~~= g);
    }
    m.push(("worldmapcontinent", "WorldMapContinent.dbd"));
    proof {
        g = g.push(("worldmapcontinent"@, "WorldMapContinent.dbd"@));
        assert(entry_views(m@) =~~= g);
    }
    m.push(("worldmapoverlay", "WorldMapOverlay.dbd"));
    proof {
        g = g.push(("worldmapoverlay"@, "WorldMapOverlay.dbd"@));
        assert(entry_views(m@) =~~= g);
    }
    m.push(("worldmapoverlaytile", "WorldMapOverlayTile.dbd"));
    proof {
        g = g.push(("worldmapoverlaytile"@, "WorldMapOverlayTile.dbd"@));
        assert(entry_views(m@) =~~= g);
    }
    m.push(("worldmaptransforms", "WorldMapTransforms.dbd"));
    proof {
        g = g.push(("worldmaptransforms"@, "WorldMapTransforms.dbd"@));
        assert(entry_views(m@) =~~= g);
    }
    m.push(("worldsafelocs", "WorldSafeLocs.dbd"));
    proof {
        g = g.push(("worldsafelocs"@, "WorldSafeLocs.dbd"@));
        assert(entry_views(m@) =~~= g);
    }
    m.push(("worldshadow", "WorldShadow.dbd"));
    proof {
        g = g.push(("worldshadow"@, "WorldShadow.dbd"@));
        assert(entry_views(m@) =~~= g);
    }
    m.push(("worldstate", "WorldState.dbd"));
    proof {
        g = g.push(("worldstate"@, "WorldState.dbd"@));
        assert(entry_views(m@) =~~= g);
    }
    m.push(("worldstateexpression", "WorldStateExpression.dbd"));
    proof {
        g = g.push(("worldstateexpression"@, "WorldStateExpression.dbd"@));
        assert(entry_views(m@) =~~= g);
    }
    m.push(("worldstateui", "WorldStateUI.dbd"));
    proof {
        g = g.push(("worldstateui"@, "WorldStateUI.dbd"@));
        assert(entry_views(m@) =~~= g);
    }
    m.push(("worldstatezonesounds", "WorldStateZoneSounds.dbd"));
    proof {
        g = g.push(("worldstatezonesounds"@, "WorldStateZoneSounds.dbd"@));
        assert(entry_views(m@) =~~= g);
    }
    m.push(("world_pvp_area", "World_PVP_Area.dbd"));
    proof {
        g = g.push(("world_pvp_area"@, "World_PVP_Area.dbd"@));
        assert(entry_views(m@) =~~= g);
    }
    m.push(("wowerror_strings", "WowError_Strings.dbd"));
    proof {
        g = g.push(("wowerror_strings"@, "WowError_Strings.dbd"@));
        assert(entry_views(m@) =~~= g);
    }
    m.push(("zoneintromusictable", "ZoneIntroMusicTable.dbd"));
    proof {
        g = g.push(("zoneintromusictable"@, "ZoneIntroMusicTable.dbd"@));
        assert(entry_views(m@) =~~= g);
    }
    m.push(("zonelight", "ZoneLight.dbd"));
    proof {
        g = g.push(("zonelight"@, "ZoneLight.dbd"@));
        assert(entry_views(m@) =~~= g);
    }
    m.push(("zonelightpoint", "ZoneLightPoint.dbd"));
    proof {
        g = g.push(("zonelightpoint"@, "ZoneLightPoint.dbd"@));
        assert(entry_views(m@) =~~= g);
    }
    m.push(("zonemusic", "ZoneMusic.dbd"));
    proof {
        g = g.push(("zonemusic"@, "ZoneMusic.dbd"@));
        assert(entry_views(m@) =~~= g);
    }
    m.push(("zonestory", "ZoneStory.dbd"));
    proof {
        g = g.push(("zonestory"@, "ZoneStory.dbd"@));
        assert(entry_views(m@) =~~= g);
    }
    m.push(("guildcolorborder", "GuildColorBorder.dbd"));
    proof {
        g = g.push(("guildcolorborder"@, "GuildColorBorder.dbd"@));
        assert(entry_views(m@) =~~= g);
    }
    m.push(("guildcoloremblem", "GuildColorEmblem.dbd"));
    proof {
        g = g.push(("guildcoloremblem"@, "GuildColorEmblem.dbd"@));
        assert(entry_views(m@) =~~= g);
    }
    m.push(("guildemblem", "GuildEmblem.dbd"));
    proof {
        g = g.push(("guildemblem"@, "GuildEmblem.dbd"@));
        assert(entry_views(m@) =~~= g);
    }
    m.push(("guildperkspells", "GuildPerkSpells.dbd"));
    proof {
        g = g.push(("guildperkspells"@, "GuildPerkSpells.dbd"@));
        assert(entry_views(m@) =~~= g);
    }
    m.push(("guildshirtbackground", "GuildShirtBackground.dbd"));
    proof {
        g = g.push(("guildshirtbackground"@, "GuildShirtBackground.dbd"@));
        assert(entry_views(m@) =~~= g);
    }
    m.push(("guildshirtborder", "GuildShirtBorder.dbd"));
    proof {
        g = g.push(("guildshirtborder"@, "GuildShirtBorder.dbd"@));
        assert(entry_views(m@) =~~= g);
    }
    m.push(("guildtabardbackground", "GuildTabardBackground.dbd"));
    proof {
        g = g.push(("guildtabardbackground"@, "GuildTabardBackground.dbd"@));
        assert(entry_views(m@) =~~= g);
    }
    m.push(("guildtabardborder", "GuildTabardBorder.dbd"));
    proof {
        g = g.push(("guildtabardborder"@, "GuildTabardBorder.dbd"@));
        assert(entry_views(m@) =~~= g);
    }
    m.push(("guildtabardemblem", "GuildTabardEmblem.dbd"));
    proof {
        g = g.push(("guildtabardemblem"@, "GuildTabardEmblem.dbd"@));
        assert(entry_views(m@) =~~= g);
    }
    m.push(("heirloom", "Heirloom.dbd"));
    proof {
        g = g.push(("heirloom"@, "Heirloom.dbd"@));
        assert(entry_views(m@) =~~= g);
        assert(m@.len() == 180);
    }
    m.push(("helmetanimscaling", "HelmetAnimScaling.dbd"));
    proof {
        g = g.push(("helmetanimscaling"@, "HelmetAnimScaling.dbd"@));
        assert(entry_views(m@) =~~= g);
    }
    m.push(("helmetgeosetdata", "HelmetGeosetData.dbd"));
    proof {
        g = g.push(("helmetgeosetdata"@, "HelmetGeosetData.dbd"@));
        assert(entry_views(m@) =~~= g);
    }
    m.push(("helmetgeosetvisdata", "HelmetGeosetVisData.dbd"));
    proof {
        g = g.push(("helmetgeosetvisdata"@, "HelmetGeosetVisData.dbd"@));
        assert(entry_views(m@) =~~= g);
    }
    m.push(("highlightcolor", "HighlightColor.dbd"));
    proof {
        g = g.push(("highlightcolor"@, "HighlightColor.dbd"@));
        assert(entry_views(m@) =~~= g);
        assert(m@.len() == 184);
    }
    proof {
        reveal(catalog_data_f);
        assert(g == catalog_data_f());
    }
    m
}

/// The whole embedded table, at the specification level: the catalog's
/// single source of content.
#[verifier::opaque]
pub closed spec fn catalog_data() -> Seq<(Seq<char>, Seq<char>)> {
    catalog_data_a() + catalog_data_b() + catalog_data_c() + catalog_data_d() + catalog_data_e()
        + catalog_data_f()
}

/// Is an entry table consistent: every key is its value's stem
/// lowercased, every value carries the definition extension, and no
/// key repeats.
pub open spec fn catalog_data_ok(data: Seq<(Seq<char>, Seq<char>)>) -> bool {
    &&& (forall|k: int|
        0 <= k < data.len() ==> (#[trigger] data[k]).0 == lower_of(stem_of(data[k].1)))
    &&& (forall|k: int| 0 <= k < data.len() ==> has_dbd_suffix((#[trigger] data[k]).1))
    &&& (forall|k1: int, k2: int|
        0 <= k1 < k2 < data.len() ==> (#[trigger] data[k1]).0 != (#[trigger] data[k2]).0)
}

// ---------------------------------------------------------------------------
// The catalog
// ---------------------------------------------------------------------------

/// The definition catalog: pairs of a normalized table name (the file
/// stem, lowercased) and the canonical definition file name, with
/// unique keys.
pub struct Catalog {
    /// The entries, in the order the data declares them.
    pub entries: Vec<(&'static str, &'static str)>,
}

impl Catalog {
    /// Every key is its value's stem lowercased, and keys are unique.
    pub open spec fn wf(self) -> bool {
        &&& (forall|k: int|
            0 <= k < self.entries@.len() ==> (#[trigger] self.entries@[k]).0@ == lower_of(
                stem_of(self.entries@[k].1@),
            ))
        &&& (forall|k1: int, k2: int|
            0 <= k1 < k2 < self.entries@.len() ==> (#[trigger] self.entries@[k1]).0@ != (
            #[trigger] self.entries@[k2]).0@)
    }
}

/// Does the definition file name end in the catalog's extension?
pub open spec fn has_dbd_suffix(s: Seq<char>) -> bool {
    s.len() >= 4 && s.subrange(s.len() - 4, s.len() as int) == ".dbd"@
}

/// Checks a value's file-name extension.
fn ends_with_dbd(v: &str) -> (r: bool)
    ensures
        r == has_dbd_suffix(v@),
{
    let cs = crate::text::str_chars(v);
    let n = cs.len();
    if n < 4 {
        return false;
    }
    let suffix = crate::text::str_chars(".dbd");
    let r = crate::text::chars_eq(&cs.as_slice()[n - 4..n], suffix.as_slice());
    proof {
        if cs@.subrange(n - 4, n as int) =~= ".dbd"@ {
            assert(cs@.subrange(n - 4, n as int) == ".dbd"@);
        }
    }
    r
}

/// Compares two string slices.
fn str_eq_str(a: &str, b: &str) -> (r: bool)
    ensures
        r == (a@ == b@),
{
    let av = crate::text::str_chars(a);
    let bv = crate::text::str_chars(b);
    let r = crate::text::chars_eq(av.as_slice(), bv.as_slice());
    proof {
        if a@ =~= b@ {
            assert(a@ == b@);
        }
    }
    r
}

/// Is some entry already keyed by `k`?
fn contains_key(entries: &Vec<(&'static str, &'static str)>, k: &str) -> (r: bool)
    ensures
        r == (exists|j: int| 0 <= j < entries@.len() && (#[trigger] entries@[j]).0@ == k@),
{
    let n = entries.len();
    let mut i: usize = 0;
    while i < n
        invariant
            0 <= i <= n,
            n == entries@.len(),
            forall|j: int| 0 <= j < i ==> (#[trigger] entries@[j]).0@ != k@,
        decreases n - i,
    {
        let (ek, _) = entries[i];
        if str_eq_str(ek, k) {
            return true;
        }
        i += 1;
    }
    false
}

/// Builds the catalog from the embedded data, checking every entry:
/// its key must be its value's stem lowercased, the value must carry
/// the definition extension, and no key may repeat. Success is exactly
/// the consistency of the embedded table, and a successful build holds
/// that table entry for entry, in order - so every build returns the
/// same catalog. Were an entry ever to fail its check, the whole build
/// would report the broken data instead of serving part of it.
pub fn get_db_file_map() -> (r: Result<Catalog, Error>)
    ensures
        r is Ok <==> catalog_data_ok(catalog_data()),
        r is Ok ==> entry_views(r->Ok_0.entries@) == catalog_data(),
        r is Ok ==> r->Ok_0.wf(),
        r is Ok ==> r->Ok_0.entries@.len() == 1234,
        r is Ok ==> (forall|k: int|
            0 <= k < r->Ok_0.entries@.len() ==> has_dbd_suffix(
                (#[trigger] r->Ok_0.entries@[k]).1@,
            )),
        r is Err ==> r->Err_0 is GenericError,
{
    let mut raw = catalog_entries_a();
    let mut part = catalog_entries_b();
    let ghost raw1 = raw@;
    raw.append(&mut part);
    proof {
        assert(entry_views(raw@) =~~= entry_views(raw1) + catalog_data_b());
    }
    let ghost raw2 = raw@;
    let mut part = catalog_entries_c();
    raw.append(&mut part);
    proof {
        assert(entry_views(raw@) =~~= entry_views(raw2) + catalog_data_c());
    }
    let ghost raw3 = raw@;
    let mut part = catalog_entries_d();
    raw.append(&mut part);
    proof {
        assert(entry_views(raw@) =~~= entry_views(raw3) + catalog_data_d());
    }
    let ghost raw4 = raw@;
    let mut part = catalog_entries_e();
    raw.append(&mut part);
    proof {
        assert(entry_views(raw@) =~~= entry_views(raw4) + catalog_data_e());
    }
    let ghost raw5 = raw@;
    let mut part = catalog_entries_f();
    raw.append(&mut part);
    proof {
        assert(entry_views(raw@) =~~= entry_views(raw5) + catalog_data_f());
        reveal(catalog_data);
        assert(entry_views(raw@) =~~= catalog_data());
    }
    let ghost cdata = catalog_data();
    let n = raw.len();
    proof {
        assert(cdata.len() == 1234);
    }
    let mut entries: Vec<(&'static str, &'static str)> = Vec::new();
    let mut i: usize = 0;
    proof {
        assert(entries@ =~~= raw@.take(0));
    }
    while i < n
        invariant
            0 <= i <= n,
            n == raw@.len(),
            n == 1234,
            entry_views(raw@) == cdata,
            cdata == catalog_data(),
            cdata.len() == 1234,
            entries@ == raw@.take(i as int),
            forall|k: int|
                0 <= k < i ==> (#[trigger] cdata[k]).0 == lower_of(stem_of(cdata[k].1)),
            forall|k: int| 0 <= k < i ==> has_dbd_suffix((#[trigger] cdata[k]).1),
            forall|k1: int, k2: int|
                0 <= k1 < k2 < i ==> (#[trigger] cdata[k1]).0 != (#[trigger] cdata[k2]).0,
        decreases n - i,
    {
        let (k, v) = raw[i];
        proof {
            assert(cdata[i as int] == entry_views(raw@)[i as int]);
            assert(cdata[i as int] == (raw@[i as int].0@, raw@[i as int].1@));
        }
        let nk = crate::driver::table_name_of(v);
        let key_ok = str_eq_str(k, nk.as_str());
        let suffix_ok = ends_with_dbd(v);
        let dup = contains_key(&entries, k);
        if !key_ok || !suffix_ok || dup {
            proof {
                if !key_ok {
                    assert((cdata[i as int]).0 != lower_of(stem_of((cdata[i as int]).1)));
                } else if !suffix_ok {
                    assert(!has_dbd_suffix((cdata[i as int]).1));
                } else {
                    let j = choose|j: int|
                        0 <= j < entries@.len() && (#[trigger] entries@[j]).0@ == k@;
                    assert(entries@[j] == raw@[j]);
                    assert(cdata[j] == (raw@[j].0@, raw@[j].1@));
                    assert((cdata[j]).0 == (cdata[i as int]).0);
                }
                assert(!catalog_data_ok(cdata));
            }
            return Err(
                Error::GenericError(
                    <String as vstd::string::StringExecFns>::from_str(
                        "embedded catalog entry failed its consistency check",
                    ),
                ),
            );
        }
        proof {
            assert forall|k1: int, k2: int| 0 <= k1 < k2 < i + 1 implies (
            #[trigger] cdata[k1]).0 != (#[trigger] cdata[k2]).0 by {
                if k2 == i {
                    assert(entries@[k1] == raw@[k1]);
                    assert(cdata[k1] == (raw@[k1].0@, raw@[k1].1@));
                    assert((entries@[k1]).0@ != k@);
                }
            }
        }
        entries.push(raw[i]);
        proof {
            assert(entries@ =~~= raw@.take(i + 1));
        }
        i += 1;
    }
    proof {
        assert(catalog_data_ok(cdata));
        assert(entries@ =~~= raw@);
    }
    let catalog = Catalog { entries };
    proof {
        assert(entry_views(catalog.entries@) == cdata);
        assert forall|k: int| 0 <= k < catalog.entries@.len() implies (
        #[trigger] catalog.entries@[k]).0@ == lower_of(stem_of(catalog.entries@[k].1@)) by {
            assert(cdata[k] == entry_views(catalog.entries@)[k]);
            assert(cdata[k] == (catalog.entries@[k].0@, catalog.entries@[k].1@));
        }
        assert forall|k: int| 0 <= k < catalog.entries@.len() implies has_dbd_suffix(
            (#[trigger] catalog.entries@[k]).1@,
        ) by {
            assert(cdata[k] == (catalog.entries@[k].0@, catalog.entries@[k].1@));
        }
        assert forall|k1: int, k2: int|
            0 <= k1 < k2 < catalog.entries@.len() implies (#[trigger] catalog.entries@[k1]).0@
            != (#[trigger] catalog.entries@[k2]).0@ by {
            assert(cdata[k1] == (catalog.entries@[k1].0@, catalog.entries@[k1].1@));
            assert(cdata[k2] == (catalog.entries@[k2].0@, catalog.entries@[k2].1@));
        }
        assert(catalog.wf());
    }
    Ok(catalog)
}

// ---------------------------------------------------------------------------
// Lookup
// ---------------------------------------------------------------------------

/// Index of the first entry keyed by `key`, or `-1`.
pub open spec fn cat_index(entries: Seq<(&'static str, &'static str)>, key: Seq<char>) -> int
    decreases entries.len(),
{
    if entries.len() == 0 {
        -1
    } else if entries[0].0@ == key {
        0
    } else {
        let r = cat_index(entries.drop_first(), key);
        if r == -1 {
            -1
        } else {
            r + 1
        }
    }
}

/// What [`cat_index`] returns: the first matching position, if any.
pub proof fn lemma_cat_index(entries: Seq<(&'static str, &'static str)>, key: Seq<char>)
    ensures
        cat_index(entries, key) == -1 ==> (forall|j: int|
            0 <= j < entries.len() ==> (#[trigger] entries[j]).0@ != key),
        cat_index(entries, key) != -1 ==> 0 <= cat_index(entries, key) < entries.len() && (entries[
            cat_index(entries, key)
        ]).0@ == key,
    decreases entries.len(),
{
    if entries.len() > 0 && entries[0].0@ != key {
        lemma_cat_index(entries.drop_first(), key);
        if cat_index(entries, key) == -1 {
            assert forall|j: int| 0 <= j < entries.len() implies (#[trigger] entries[j]).0@
                != key by {
                if j > 0 {
                    assert(entries.drop_first()[j - 1] == entries[j]);
                }
            }
        } else {
            assert(entries.drop_first()[cat_index(entries, key) - 1] == entries[cat_index(
                entries,
                key,
            )]);
        }
    }
}

/// A matching position with none before it is what [`cat_index`] returns.
pub proof fn lemma_cat_index_at(
    entries: Seq<(&'static str, &'static str)>,
    key: Seq<char>,
    i: int,
)
    requires
        0 <= i < entries.len(),
        entries[i].0@ == key,
        forall|j: int| 0 <= j < i ==> (#[trigger] entries[j]).0@ != key,
    ensures
        cat_index(entries, key) == i,
    decreases i,
{
    if i > 0 {
        assert forall|j: int| 0 <= j < i - 1 implies (#[trigger] entries.drop_first()[j]).0@
            != key by {
            assert(entries.drop_first()[j] == entries[j + 1]);
        }
        assert(entries.drop_first()[i - 1] == entries[i]);
        lemma_cat_index_at(entries.drop_first(), key, i - 1);
    }
}

/// Resolves a raw file name to its canonical definition name: the
/// portion before the first dot, lowercased, looked up in the catalog.
/// A miss is the recoverable error the driver skips on.
pub fn get_dbd_name(catalog: &Catalog, file_name: &str) -> (r: Result<&'static str, Error>)
    ensures
        ({
            let key = lower_of(stem_of(file_name@));
            let i = cat_index(catalog.entries@, key);
            &&& (r is Ok <==> i >= 0)
            &&& (r is Ok ==> r->Ok_0@ == (catalog.entries@[i]).1@)
            &&& (r is Err ==> r->Err_0 is SchemaValidation)
        }),
{
    let key = crate::driver::table_name_of(file_name);
    let n = catalog.entries.len();
    let mut i: usize = 0;
    while i < n
        invariant
            0 <= i <= n,
            n == catalog.entries@.len(),
            key@ == lower_of(stem_of(file_name@)),
            forall|j: int| 0 <= j < i ==> (#[trigger] catalog.entries@[j]).0@ != key@,
        decreases n - i,
    {
        let (ek, ev) = catalog.entries[i];
        if str_eq_str(ek, key.as_str()) {
            proof {
                lemma_cat_index_at(catalog.entries@, key@, i as int);
            }
            return Ok(ev);
        }
        i += 1;
    }
    proof {
        lemma_cat_index(catalog.entries@, key@);
        if cat_index(catalog.entries@, key@) != -1 {
            assert((catalog.entries@[cat_index(catalog.entries@, key@)]).0@ == key@);
        }
    }
    Err(
        Error::SchemaValidation(
            <String as vstd::string::StringExecFns>::from_str("unknown table name"),
        ),
    )
}

// ---------------------------------------------------------------------------
// The canonical name round trip
// ---------------------------------------------------------------------------

/// The canonical definition name a raw name resolves to, if any.
pub open spec fn canonical_of(entries: Seq<(&'static str, &'static str)>, s: Seq<char>) -> Option<
    Seq<char>,
> {
    let i = cat_index(entries, lower_of(stem_of(s)));
    if i >= 0 {
        Some(entries[i].1@)
    } else {
        None
    }
}

/// Appending a dotted suffix to a name does not change its stem.
pub proof fn lemma_stem_append(v: Seq<char>, ext: Seq<char>)
    requires
        ext.len() > 0,
        ext[0] == '.',
    ensures
        stem_of(v + ext) == stem_of(v),
{
    let s = v + ext;
    crate::text::lemma_find_char(v, '.');
    let p = crate::text::find_char(v, '.');
    if p == -1 {
        assert forall|j: int| 0 <= j < v.len() implies s[j] != '.' by {
            assert(s[j] == v[j]);
        }
        assert(s[v.len() as int] == '.');
        crate::text::lemma_find_char_at(s, '.', v.len() as int);
        assert(s.subrange(0, v.len() as int) =~= v);
    } else {
        assert forall|j: int| 0 <= j < p implies s[j] != '.' by {
            assert(s[j] == v[j]);
        }
        assert(s[p] == v[p]);
        crate::text::lemma_find_char_at(s, '.', p);
        assert(s.subrange(0, p) =~= v.subrange(0, p));
    }
}

/// Resolving a name, appending the table-file extension to the result,
/// and resolving again yields the same canonical name: the catalog's
/// keys are the stems of its values, lowercased, and unique.
pub proof fn lemma_canonical_name_idempotent(cat: Catalog, x: Seq<char>)
    requires
        cat.wf(),
        canonical_of(cat.entries@, x) is Some,
    ensures
        canonical_of(cat.entries@, canonical_of(cat.entries@, x)->Some_0 + ".dbc"@)
            == canonical_of(cat.entries@, x),
{
    let key = lower_of(stem_of(x));
    lemma_cat_index(cat.entries@, key);
    let i = cat_index(cat.entries@, key);
    let v = (cat.entries@[i]).1@;
    reveal_strlit(".dbc");
    lemma_stem_append(v, ".dbc"@);
    let key2 = lower_of(stem_of(v + ".dbc"@));
    assert((cat.entries@[i]).0@ == key2);
    lemma_cat_index(cat.entries@, key2);
    let j = cat_index(cat.entries@, key2);
    assert(j != -1);
    if i != j {
        if i < j {
            assert((cat.entries@[i]).0@ != (cat.entries@[j]).0@);
        } else {
            assert((cat.entries@[j]).0@ != (cat.entries@[i]).0@);
        }
    }
}

} // verus!
